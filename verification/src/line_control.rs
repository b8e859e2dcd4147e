//! Codec for the Line Control Register.
//!
//! One byte packs four independent sub-fields:
//!
//! | Bits | Field                                          |
//! |------|------------------------------------------------|
//! | 7    | Divisor Latch Access Bit (DLAB)                |
//! | 6    | Break enable                                   |
//! | 5..3 | Parity select                                  |
//! | 2    | Stop bits (clear: 1; set: 1.5 or 2)            |
//! | 1..0 | Word length, biased: stored value + 5 = 5..=8  |
//!
//! Every setter is a pure read-modify-write transform on the byte
//! that preserves all unrelated bits. Setters taking an integer
//! argument reject values outside the legal set with
//! [`InvalidFieldValue`]; nothing is silently clamped.

use vstd::prelude::*;

verus! {

/// Parity mode of the serial protocol, one of the five encodings the
/// Line Control Register defines.
#[derive(Copy, Clone, Debug, PartialEq, Eq, Structural)]
pub enum Parity {
    No,
    Odd,
    Even,
    Mark,
    Space,
}

/// A field value outside the closed legal set was passed to an
/// encoder: a programming-contract violation, reported to the caller
/// and never silently clamped.
#[derive(Copy, Clone, Debug, PartialEq, Eq, Structural)]
pub struct InvalidFieldValue;

/// Parity-select bit pattern of a parity mode, already shifted into
/// bits 5..3. These five are the only patterns the encoder produces.
pub open spec fn spec_parity_bits(parity: Parity) -> u8 {
    match parity {
        Parity::No => 0x00,
        Parity::Odd => 0x08,
        Parity::Even => 0x18,
        Parity::Mark => 0x28,
        Parity::Space => 0x38,
    }
}

/// Parity mode encoded in bits 5..3 of a Line Control byte. The
/// three bit patterns never produced by the encoder decode to `None`:
/// the hardware documentation leaves them reserved, so no default is
/// guessed.
pub open spec fn spec_parity_of(lcr: u8) -> Option<Parity> {
    let bits = lcr & 0x38;
    if bits == 0x00 {
        Some(Parity::No)
    } else if bits == 0x08 {
        Some(Parity::Odd)
    } else if bits == 0x18 {
        Some(Parity::Even)
    } else if bits == 0x28 {
        Some(Parity::Mark)
    } else if bits == 0x38 {
        Some(Parity::Space)
    } else {
        None
    }
}

/// A Line Control byte with its parity field replaced; bits outside
/// 5..3 are preserved.
pub open spec fn spec_with_parity(lcr: u8, parity: Parity) -> u8 {
    (lcr & 0xc7) | spec_parity_bits(parity)
}

/// Stop-bit count encoded in bit 2 of a Line Control byte: 1, or 2
/// standing for the hardware's "1.5 or 2" setting (the register does
/// not distinguish the two; that depends on the word length).
pub open spec fn spec_stop_bits_of(lcr: u8) -> u8 {
    (((lcr & 0x04) >> 2) + 1) as u8
}

/// A Line Control byte with its stop-bit field replaced; only
/// meaningful for `stop_bits` in {1, 2}.
pub open spec fn spec_with_stop_bits(lcr: u8, stop_bits: u8) -> u8 {
    if stop_bits == 1 {
        lcr & 0xfb
    } else {
        lcr | 0x04
    }
}

/// Word length encoded in bits 1..0 of a Line Control byte, in bits
/// per character: stored value + 5, so always 5..=8.
pub open spec fn spec_word_length_of(lcr: u8) -> u8 {
    ((lcr & 0x03) + 5) as u8
}

/// A Line Control byte with its word-length field replaced; only
/// meaningful for `word_length` in 5..=8.
pub open spec fn spec_with_word_length(lcr: u8, word_length: u8) -> u8 {
    (lcr & 0xfc) | ((word_length - 5) as u8)
}

/// Whether the Divisor Latch Access Bit (bit 7) is set in a Line
/// Control byte.
pub open spec fn spec_dlab_of(lcr: u8) -> bool {
    lcr & 0x80 != 0
}

/// Decodes the parity field of a Line Control byte; `None` for the
/// three reserved patterns.
pub fn parity_of(lcr: u8) -> (r: Option<Parity>)
    ensures
        r == spec_parity_of(lcr),
{
    let bits = lcr & 0x38;
    if bits == 0x00 {
        Some(Parity::No)
    } else if bits == 0x08 {
        Some(Parity::Odd)
    } else if bits == 0x18 {
        Some(Parity::Even)
    } else if bits == 0x28 {
        Some(Parity::Mark)
    } else if bits == 0x38 {
        Some(Parity::Space)
    } else {
        None
    }
}

/// Replaces the parity field of a Line Control byte, preserving all
/// other bits.
pub fn with_parity(lcr: u8, parity: Parity) -> (r: u8)
    ensures
        r == spec_with_parity(lcr, parity),
{
    let bits: u8 = match parity {
        Parity::No => 0x00,
        Parity::Odd => 0x08,
        Parity::Even => 0x18,
        Parity::Mark => 0x28,
        Parity::Space => 0x38,
    };
    (lcr & 0xc7) | bits
}

/// Decodes the stop-bit field of a Line Control byte; total, always
/// 1 or 2.
pub fn stop_bits_of(lcr: u8) -> (r: u8)
    ensures
        r == spec_stop_bits_of(lcr),
        r == 1 || r == 2,
{
    proof {
        assert(((lcr & 0x04) >> 2) == 0 || ((lcr & 0x04) >> 2) == 1) by (bit_vector);
    }
    ((lcr & 0x04) >> 2) + 1
}

/// Replaces the stop-bit field of a Line Control byte, preserving
/// all other bits; rejects counts outside {1, 2}.
pub fn with_stop_bits(lcr: u8, stop_bits: u8) -> (r: Result<u8, InvalidFieldValue>)
    ensures
        stop_bits == 1 || stop_bits == 2 ==> r == Ok::<u8, InvalidFieldValue>(
            spec_with_stop_bits(lcr, stop_bits),
        ),
        !(stop_bits == 1 || stop_bits == 2) ==> r == Err::<u8, InvalidFieldValue>(
            InvalidFieldValue,
        ),
{
    if stop_bits == 1 {
        Ok(lcr & 0xfb)
    } else if stop_bits == 2 {
        Ok(lcr | 0x04)
    } else {
        Err(InvalidFieldValue)
    }
}

/// Decodes the word-length field of a Line Control byte; total,
/// always 5..=8.
pub fn word_length_of(lcr: u8) -> (r: u8)
    ensures
        r == spec_word_length_of(lcr),
        5 <= r <= 8,
{
    proof {
        assert(lcr & 0x03 <= 3) by (bit_vector);
    }
    (lcr & 0x03) + 5
}

/// Replaces the word-length field of a Line Control byte, preserving
/// all other bits; rejects lengths outside 5..=8.
pub fn with_word_length(lcr: u8, word_length: u8) -> (r: Result<u8, InvalidFieldValue>)
    ensures
        5 <= word_length <= 8 ==> r == Ok::<u8, InvalidFieldValue>(
            spec_with_word_length(lcr, word_length),
        ),
        !(5 <= word_length <= 8) ==> r == Err::<u8, InvalidFieldValue>(InvalidFieldValue),
{
    if 5 <= word_length && word_length <= 8 {
        Ok((lcr & 0xfc) | (word_length - 5))
    } else {
        Err(InvalidFieldValue)
    }
}

/// Whether the Divisor Latch Access Bit is set in a Line Control byte.
pub fn dlab_of(lcr: u8) -> (r: bool)
    ensures
        r == spec_dlab_of(lcr),
{
    lcr & 0x80 != 0
}

/// Law: encoding a word length and decoding it again gives the word
/// length back, for every legal length and whatever the other bits of
/// the byte hold; and the stored field is the length less 5.
pub proof fn lemma_word_length_round_trip(lcr: u8, word_length: u8)
    requires
        5 <= word_length <= 8,
    ensures
        spec_word_length_of(spec_with_word_length(lcr, word_length)) == word_length,
        spec_with_word_length(lcr, word_length) & 0x03 == word_length - 5,
{
    assert(5 <= word_length <= 8 ==> ((lcr & 0xfc) | ((word_length - 5) as u8)) & 0x03
        == (word_length - 5) as u8) by (bit_vector);
}

/// Law: encoding a stop-bit count and decoding it again gives the
/// count back, for both legal counts and whatever the other bits of
/// the byte hold.
pub proof fn lemma_stop_bits_round_trip(lcr: u8, stop_bits: u8)
    requires
        stop_bits == 1 || stop_bits == 2,
    ensures
        spec_stop_bits_of(spec_with_stop_bits(lcr, stop_bits)) == stop_bits,
{
    assert((((lcr & 0xfb) & 0x04) >> 2) + 1 == 1) by (bit_vector);
    assert((((lcr | 0x04) & 0x04) >> 2) + 1 == 2) by (bit_vector);
}

/// Law: encoding a parity mode and decoding it again gives the mode
/// back, for all five modes and whatever the other bits of the byte
/// hold; so the encoder never produces a reserved pattern.
pub proof fn lemma_parity_round_trip(lcr: u8, parity: Parity)
    ensures
        spec_parity_of(spec_with_parity(lcr, parity)) == Some(parity),
{
    assert(((lcr & 0xc7) | 0x00) & 0x38 == 0x00) by (bit_vector);
    assert(((lcr & 0xc7) | 0x08) & 0x38 == 0x08) by (bit_vector);
    assert(((lcr & 0xc7) | 0x18) & 0x38 == 0x18) by (bit_vector);
    assert(((lcr & 0xc7) | 0x28) & 0x38 == 0x28) by (bit_vector);
    assert(((lcr & 0xc7) | 0x38) & 0x38 == 0x38) by (bit_vector);
}

/// Law: a byte decodes to no parity mode exactly when its parity
/// field holds one of the three patterns the encoder never produces.
pub proof fn lemma_parity_reserved_rejected(lcr: u8)
    ensures
        spec_parity_of(lcr) is None <==> (lcr & 0x38 == 0x10 || lcr & 0x38 == 0x20 || lcr & 0x38
            == 0x30),
{
    assert(lcr & 0x38 == 0x00 || lcr & 0x38 == 0x08 || lcr & 0x38 == 0x10 || lcr & 0x38 == 0x18
        || lcr & 0x38 == 0x20 || lcr & 0x38 == 0x28 || lcr & 0x38 == 0x30 || lcr & 0x38 == 0x38)
        by (bit_vector);
}

} // verus!
