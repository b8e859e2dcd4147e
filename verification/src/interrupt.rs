//! Decoder for the Interrupt Identification Register.
//!
//! A read of the register yields one byte:
//!
//! | Bits | Field                                                    |
//! |------|----------------------------------------------------------|
//! | 7..6 | FIFO capability state                                    |
//! | 5    | 64-byte FIFO enabled (16750 only)                        |
//! | 4    | Reserved                                                 |
//! | 3..1 | Interrupt cause, priority-encoded                        |
//! | 0    | Pending flag, inverted: set means *no* interrupt pending |
//!
//! The cause table is exhaustive: every 4-bit pattern of bits 3..0
//! maps to exactly one outcome, either "nothing pending" or one of
//! the six cause variants, with `Reserved` the catch-all for the
//! patterns the hardware documentation itself marks reserved.
//!
//! Hazard, documented but not enforced here: on real hardware,
//! reading this register clears a pending transmitter-holding-
//! register-empty cause; the other causes clear by reading a
//! different register. A single read therefore consumes that one
//! cause, and no read may be assumed idempotent.

use vstd::prelude::*;

verus! {

/// FIFO capability state reported by bits 7..6 of the Interrupt
/// Identification Register.
#[derive(Copy, Clone, Debug, PartialEq, Eq, Structural)]
pub enum ChipFifoInfo {
    NoFifo,
    Reserved,
    EnabledNoFunction,
    Enabled,
}

/// Interrupt cause reported by bits 3..1 of the Interrupt
/// Identification Register, gated by the pending flag in bit 0.
#[derive(Copy, Clone, Debug, PartialEq, Eq, Structural)]
pub enum InterruptType {
    ModemStatus,
    TransmitterHoldingRegisterEmpty,
    ReceivedDataAvailable,
    ReceiverLineStatus,
    Timeout,
    Reserved,
}

/// FIFO capability state encoded in bits 7..6 of an Interrupt
/// Identification byte; total over all four patterns.
pub open spec fn spec_fifo_info_of(iir: u8) -> ChipFifoInfo {
    let bits = iir & 0xc0;
    if bits == 0x00 {
        ChipFifoInfo::NoFifo
    } else if bits == 0x40 {
        ChipFifoInfo::Reserved
    } else if bits == 0x80 {
        ChipFifoInfo::EnabledNoFunction
    } else {
        ChipFifoInfo::Enabled
    }
}

/// Interrupt cause encoded in bits 3..0 of an Interrupt
/// Identification byte. `None` when bit 0 is set (no interrupt
/// pending, the hardware's inverted convention); otherwise the
/// priority table over the 3-bit cause field, with `Reserved` for
/// the patterns 1000, 1010 and 1110.
pub open spec fn spec_interrupt_type_of(iir: u8) -> Option<InterruptType> {
    let irq = iir & 0x0f;
    if irq & 0x01 != 0 {
        None
    } else if irq == 0x00 {
        Some(InterruptType::ModemStatus)
    } else if irq == 0x02 {
        Some(InterruptType::TransmitterHoldingRegisterEmpty)
    } else if irq == 0x04 {
        Some(InterruptType::ReceivedDataAvailable)
    } else if irq == 0x06 {
        Some(InterruptType::ReceiverLineStatus)
    } else if irq == 0x0c {
        Some(InterruptType::Timeout)
    } else {
        Some(InterruptType::Reserved)
    }
}

/// Whether the 64-byte FIFO flag (bit 5) is set in an Interrupt
/// Identification byte.
pub open spec fn spec_fifo_64_byte_of(iir: u8) -> bool {
    iir & 0x20 != 0
}

/// Whether an interrupt is pending per bit 0 of an Interrupt
/// Identification byte: clear means pending.
pub open spec fn spec_interrupt_pending_of(iir: u8) -> bool {
    iir & 0x01 == 0
}

/// Decodes the FIFO capability state from an Interrupt
/// Identification byte; cannot fail.
pub fn fifo_info_of(iir: u8) -> (r: ChipFifoInfo)
    ensures
        r == spec_fifo_info_of(iir),
{
    let bits = iir & 0xc0;
    if bits == 0x00 {
        ChipFifoInfo::NoFifo
    } else if bits == 0x40 {
        ChipFifoInfo::Reserved
    } else if bits == 0x80 {
        ChipFifoInfo::EnabledNoFunction
    } else {
        ChipFifoInfo::Enabled
    }
}

/// Decodes the interrupt cause from an Interrupt Identification
/// byte; `None` means no interrupt is pending.
pub fn interrupt_type_of(iir: u8) -> (r: Option<InterruptType>)
    ensures
        r == spec_interrupt_type_of(iir),
{
    let irq = iir & 0x0f;
    if irq & 0x01 != 0 {
        None
    } else if irq == 0x00 {
        Some(InterruptType::ModemStatus)
    } else if irq == 0x02 {
        Some(InterruptType::TransmitterHoldingRegisterEmpty)
    } else if irq == 0x04 {
        Some(InterruptType::ReceivedDataAvailable)
    } else if irq == 0x06 {
        Some(InterruptType::ReceiverLineStatus)
    } else if irq == 0x0c {
        Some(InterruptType::Timeout)
    } else {
        Some(InterruptType::Reserved)
    }
}

/// Whether the 64-byte FIFO flag is set in an Interrupt
/// Identification byte.
pub fn fifo_64_byte_of(iir: u8) -> (r: bool)
    ensures
        r == spec_fifo_64_byte_of(iir),
{
    iir & 0x20 != 0
}

/// Whether an interrupt is pending per an Interrupt Identification
/// byte.
pub fn interrupt_pending_of(iir: u8) -> (r: bool)
    ensures
        r == spec_interrupt_pending_of(iir),
{
    iir & 0x01 == 0
}

/// Law: the cause decode is total over the 16 possible patterns of
/// bits 3..0, and maps each pattern to exactly the outcome below:
/// the eight odd patterns to "nothing pending", the eight even ones
/// to their fixed cause.
pub proof fn lemma_interrupt_type_exhaustive(iir: u8)
    ensures
        iir & 0x0f == 0x00 ==> spec_interrupt_type_of(iir) == Some(InterruptType::ModemStatus),
        iir & 0x0f == 0x02 ==> spec_interrupt_type_of(iir) == Some(
            InterruptType::TransmitterHoldingRegisterEmpty,
        ),
        iir & 0x0f == 0x04 ==> spec_interrupt_type_of(iir) == Some(
            InterruptType::ReceivedDataAvailable,
        ),
        iir & 0x0f == 0x06 ==> spec_interrupt_type_of(iir) == Some(
            InterruptType::ReceiverLineStatus,
        ),
        iir & 0x0f == 0x0c ==> spec_interrupt_type_of(iir) == Some(InterruptType::Timeout),
        iir & 0x0f == 0x08 || iir & 0x0f == 0x0a || iir & 0x0f == 0x0e
            ==> spec_interrupt_type_of(iir) == Some(InterruptType::Reserved),
        iir & 0x01 == 1 ==> spec_interrupt_type_of(iir) is None,
        iir & 0x01 == 0 ==> spec_interrupt_type_of(iir) is Some,
{
    let irq = iir & 0x0f;
    assert((0x00u8 & 0x01 == 0) && (0x02u8 & 0x01 == 0) && (0x04u8 & 0x01 == 0) && (0x06u8 & 0x01
        == 0) && (0x08u8 & 0x01 == 0) && (0x0au8 & 0x01 == 0) && (0x0cu8 & 0x01 == 0) && (0x0eu8
        & 0x01 == 0)) by (bit_vector);
    assert((iir & 0x0f) & 0x01 == iir & 0x01) by (bit_vector);
    assert(iir & 0x01 == 0 ==> irq == 0x00 || irq == 0x02 || irq == 0x04 || irq == 0x06 || irq
        == 0x08 || irq == 0x0a || irq == 0x0c || irq == 0x0e) by (bit_vector)
        requires
            irq == iir & 0x0f,
    ;
    assert(iir & 0x01 == 0 || iir & 0x01 == 1) by (bit_vector);
}

/// Law: every byte decodes to exactly one FIFO capability state; in
/// particular the four patterns of bits 7..6 map as the hardware
/// table gives them.
pub proof fn lemma_fifo_info_exhaustive(iir: u8)
    ensures
        iir & 0xc0 == 0x00 ==> spec_fifo_info_of(iir) == ChipFifoInfo::NoFifo,
        iir & 0xc0 == 0x40 ==> spec_fifo_info_of(iir) == ChipFifoInfo::Reserved,
        iir & 0xc0 == 0x80 ==> spec_fifo_info_of(iir) == ChipFifoInfo::EnabledNoFunction,
        iir & 0xc0 == 0xc0 ==> spec_fifo_info_of(iir) == ChipFifoInfo::Enabled,
        iir & 0xc0 == 0x00 || iir & 0xc0 == 0x40 || iir & 0xc0 == 0x80 || iir & 0xc0 == 0xc0,
{
    assert(iir & 0xc0 == 0x00 || iir & 0xc0 == 0x40 || iir & 0xc0 == 0x80 || iir & 0xc0 == 0xc0)
        by (bit_vector);
}

} // verus!
