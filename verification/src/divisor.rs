//! Baud-rate divisor arithmetic for the divisor latch.
//!
//! The UART derives its baud rate from a reference clock divided by
//! sixteen times the divisor programmed into the two divisor-latch
//! registers. The divisor is computed with truncating integer
//! division and split into a low and a high byte.

use vstd::prelude::*;

verus! {

/// The 16-bit divisor value for a clock and a target baud rate,
/// using truncating division. A zero result (baud rate too large for
/// the clock) is hardware-invalid; rejecting such inputs is the
/// caller's obligation.
pub open spec fn spec_divisor(clock: int, baud_rate: int) -> int
    recommends
        baud_rate >= 1,
{
    clock / (16 * baud_rate)
}

/// Truncating 16-bit baud-rate divisor for a reference clock, as the
/// divisor latch expects it: `clock / (16 * baud_rate)`.
pub fn divisor_for(clock: usize, baud_rate: usize) -> (d: usize)
    requires
        baud_rate >= 1,
        16 * baud_rate <= usize::MAX,
    ensures
        d == spec_divisor(clock as int, baud_rate as int),
{
    clock / (16 * baud_rate)
}

/// Low byte of a divisor value, as written to the divisor-latch-low register.
pub open spec fn spec_divisor_low(d: int) -> u8 {
    (d % 256) as u8
}

/// High byte of a divisor value, as written to the divisor-latch-high register.
pub open spec fn spec_divisor_high(d: int) -> u8 {
    ((d / 256) % 256) as u8
}

/// Low byte of a divisor, truncating values above 16 bits as the
/// 8-bit latch register would.
pub fn divisor_low(d: usize) -> (r: u8)
    ensures
        r == spec_divisor_low(d as int),
{
    (d % 256) as u8
}

/// High byte of a divisor, truncating values above 16 bits as the
/// 8-bit latch register would.
pub fn divisor_high(d: usize) -> (r: u8)
    ensures
        r == spec_divisor_high(d as int),
{
    ((d / 256) % 256) as u8
}

/// Law: the byte split is the usual bit view of a 16-bit value: the
/// low byte is `d & 0xff` and the high byte is `(d >> 8) & 0xff`.
pub proof fn lemma_divisor_bytes_as_bit_fields(d: usize)
    ensures
        spec_divisor_low(d as int) == (d & 0xff) as u8,
        spec_divisor_high(d as int) == ((d >> 8) & 0xff) as u8,
{
    assert((d % 256) as u8 == (d & 0xff) as u8) by (bit_vector);
    assert(((d / 256) % 256) as u8 == ((d >> 8) & 0xff) as u8) by (bit_vector);
}

} // verus!
