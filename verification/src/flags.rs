//! Flag views of the Interrupt Enable, Line Status and Modem Status
//! registers.
//!
//! Each view wraps one raw register byte and names its boolean
//! flags. Construction truncates bits the register does not define
//! (the hardware may set reserved bits; truncating them avoids
//! spurious failures) and can never fail. The Interrupt Enable view
//! additionally offers the set operations needed to build a new
//! enable byte for write-back; the Line Status and Modem Status
//! views are read-only projections.

use vstd::prelude::*;

verus! {

/// One flag of the Interrupt Enable Register.
#[derive(Copy, Clone, Debug, PartialEq, Eq, Structural)]
pub enum IerFlag {
    /// Received Data Available Interrupt (bit 0)
    ReceivedDataAvailable,
    /// Transmitter Holding Register Empty Interrupt (bit 1)
    TransmitterHoldingRegisterEmpty,
    /// Receiver Line Status Interrupt (bit 2)
    ReceiverLineStatus,
    /// Modem Status Interrupt (bit 3)
    ModemStatus,
    /// Sleep Mode (bit 4, 16750 only)
    SleepMode,
    /// Low Power Mode (bit 5, 16750 only)
    LowPowerMode,
}

impl IerFlag {
    /// Single-bit mask of the flag within the Interrupt Enable byte.
    pub open spec fn spec_mask(self) -> u8 {
        match self {
            IerFlag::ReceivedDataAvailable => 0x01,
            IerFlag::TransmitterHoldingRegisterEmpty => 0x02,
            IerFlag::ReceiverLineStatus => 0x04,
            IerFlag::ModemStatus => 0x08,
            IerFlag::SleepMode => 0x10,
            IerFlag::LowPowerMode => 0x20,
        }
    }

    /// Single-bit mask of the flag within the Interrupt Enable byte.
    pub fn mask(self) -> (r: u8)
        ensures
            r == self.spec_mask(),
    {
        match self {
            IerFlag::ReceivedDataAvailable => 0x01,
            IerFlag::TransmitterHoldingRegisterEmpty => 0x02,
            IerFlag::ReceiverLineStatus => 0x04,
            IerFlag::ModemStatus => 0x08,
            IerFlag::SleepMode => 0x10,
            IerFlag::LowPowerMode => 0x20,
        }
    }

    /// Every flag mask lies within the six defined bits.
    pub proof fn lemma_mask_defined(self)
        ensures
            self.spec_mask() & 0xc0 == 0,
            self.spec_mask() != 0,
    {
        assert((0x01u8 & 0xc0 == 0) && (0x02u8 & 0xc0 == 0) && (0x04u8 & 0xc0 == 0) && (0x08u8
            & 0xc0 == 0) && (0x10u8 & 0xc0 == 0) && (0x20u8 & 0xc0 == 0)) by (bit_vector);
    }
}

/// Flag-set view of the Interrupt Enable Register. Well-formed
/// values never carry the two reserved bits, so a set written back
/// to the register leaves them clear.
#[derive(Copy, Clone, Debug, PartialEq, Eq, Structural)]
pub struct IerFlags {
    bits: u8,
}

impl View for IerFlags {
    type V = u8;

    /// The raw byte the flag set stands for.
    closed spec fn view(&self) -> u8 {
        self.bits
    }
}

impl IerFlags {
    /// Well-formedness: the two reserved bits (7 and 6) are clear.
    pub open spec fn wf(self) -> bool {
        self@ & 0xc0 == 0
    }

    /// The empty flag set.
    pub fn empty() -> (r: Self)
        ensures
            r@ == 0,
            r.wf(),
    {
        proof {
            assert(0u8 & 0xc0 == 0) by (bit_vector);
        }
        IerFlags { bits: 0 }
    }

    /// Builds a flag set from a raw register byte, silently
    /// truncating the reserved bits; cannot fail.
    pub fn from_bits_truncate(bits: u8) -> (r: Self)
        ensures
            r@ == bits & 0x3f,
            r.wf(),
    {
        proof {
            assert((bits & 0x3f) & 0xc0 == 0) by (bit_vector);
        }
        IerFlags { bits: bits & 0x3f }
    }

    /// The raw byte, as written back to the register.
    pub fn bits(self) -> (r: u8)
        ensures
            r == self@,
    {
        self.bits
    }

    /// Whether the flag is set.
    pub fn contains(self, flag: IerFlag) -> (r: bool)
        ensures
            r == (self@ & flag.spec_mask() != 0),
    {
        self.bits & flag.mask() != 0
    }

    /// The set with one flag added.
    pub fn with(self, flag: IerFlag) -> (r: Self)
        ensures
            r@ == self@ | flag.spec_mask(),
            self.wf() ==> r.wf(),
    {
        proof {
            flag.lemma_mask_defined();
            lemma_ops_preserve_defined_bits(self.bits, flag.spec_mask());
        }
        IerFlags { bits: self.bits | flag.mask() }
    }

    /// The set with one flag removed.
    pub fn without(self, flag: IerFlag) -> (r: Self)
        ensures
            r@ == self@ & !flag.spec_mask(),
            self.wf() ==> r.wf(),
    {
        proof {
            flag.lemma_mask_defined();
            lemma_ops_preserve_defined_bits(self.bits, flag.spec_mask());
        }
        IerFlags { bits: self.bits & !flag.mask() }
    }

    /// The set with one flag inverted (an exclusive-or with its
    /// mask), for read-modify-write toggling.
    pub fn toggled(self, flag: IerFlag) -> (r: Self)
        ensures
            r@ == self@ ^ flag.spec_mask(),
            self.wf() ==> r.wf(),
    {
        proof {
            flag.lemma_mask_defined();
            lemma_ops_preserve_defined_bits(self.bits, flag.spec_mask());
        }
        IerFlags { bits: self.bits ^ flag.mask() }
    }

    /// Union of two flag sets.
    pub fn union(self, other: Self) -> (r: Self)
        ensures
            r@ == self@ | other@,
            self.wf() && other.wf() ==> r.wf(),
    {
        proof {
            lemma_ops_preserve_defined_bits(self.bits, other.bits);
        }
        IerFlags { bits: self.bits | other.bits }
    }

    /// Difference of two flag sets: the flags of `self` not in
    /// `other`.
    pub fn difference(self, other: Self) -> (r: Self)
        ensures
            r@ == self@ & !other@,
            self.wf() ==> r.wf(),
    {
        proof {
            lemma_ops_preserve_defined_bits(self.bits, other.bits);
        }
        IerFlags { bits: self.bits & !other.bits }
    }

    /// Symmetric difference of two flag sets: the flags in exactly
    /// one of the two.
    pub fn symmetric_difference(self, other: Self) -> (r: Self)
        ensures
            r@ == self@ ^ other@,
            self.wf() && other.wf() ==> r.wf(),
    {
        proof {
            lemma_ops_preserve_defined_bits(self.bits, other.bits);
        }
        IerFlags { bits: self.bits ^ other.bits }
    }
}

/// The set operations on Interrupt Enable bytes keep the reserved
/// bits clear when their operands do.
proof fn lemma_ops_preserve_defined_bits(a: u8, b: u8)
    by (bit_vector)
    ensures
        a & 0xc0 == 0 && b & 0xc0 == 0 ==> (a | b) & 0xc0 == 0,
        a & 0xc0 == 0 ==> (a & !b) & 0xc0 == 0,
        a & 0xc0 == 0 && b & 0xc0 == 0 ==> (a ^ b) & 0xc0 == 0,
{
}

/// Law: toggling a flag twice gives the original flag set back; the
/// toggle is self-inverse under exclusive-or.
pub proof fn lemma_toggle_twice_restores(bits: u8, flag: IerFlag)
    ensures
        (bits ^ flag.spec_mask()) ^ flag.spec_mask() == bits,
{
    let m = flag.spec_mask();
    assert((bits ^ m) ^ m == bits) by (bit_vector);
}

/// One flag of the Line Status Register.
#[derive(Copy, Clone, Debug, PartialEq, Eq, Structural)]
pub enum LsrFlag {
    /// Data Ready (bit 0)
    DataReady,
    /// Overrun Error (bit 1)
    OverrunError,
    /// Parity Error (bit 2)
    ParityError,
    /// Framing Error (bit 3)
    FramingError,
    /// Break Interrupt (bit 4)
    BreakInterrupt,
    /// Transmitter Holding Register Empty (bit 5)
    TransmitterHoldingRegisterEmpty,
    /// Data Holding Registers Empty (bit 6)
    DataHoldingRegistersEmpty,
    /// Error in Received FIFO (bit 7)
    ReceivedFifoError,
}

impl LsrFlag {
    /// Single-bit mask of the flag within the Line Status byte.
    pub open spec fn spec_mask(self) -> u8 {
        match self {
            LsrFlag::DataReady => 0x01,
            LsrFlag::OverrunError => 0x02,
            LsrFlag::ParityError => 0x04,
            LsrFlag::FramingError => 0x08,
            LsrFlag::BreakInterrupt => 0x10,
            LsrFlag::TransmitterHoldingRegisterEmpty => 0x20,
            LsrFlag::DataHoldingRegistersEmpty => 0x40,
            LsrFlag::ReceivedFifoError => 0x80,
        }
    }

    /// Single-bit mask of the flag within the Line Status byte.
    pub fn mask(self) -> (r: u8)
        ensures
            r == self.spec_mask(),
    {
        match self {
            LsrFlag::DataReady => 0x01,
            LsrFlag::OverrunError => 0x02,
            LsrFlag::ParityError => 0x04,
            LsrFlag::FramingError => 0x08,
            LsrFlag::BreakInterrupt => 0x10,
            LsrFlag::TransmitterHoldingRegisterEmpty => 0x20,
            LsrFlag::DataHoldingRegistersEmpty => 0x40,
            LsrFlag::ReceivedFifoError => 0x80,
        }
    }
}

/// Read-only flag view of the Line Status Register. All eight bits
/// are defined, so construction keeps the byte as it is.
#[derive(Copy, Clone, Debug, PartialEq, Eq, Structural)]
pub struct LsrFlags {
    bits: u8,
}

impl View for LsrFlags {
    type V = u8;

    /// The raw byte the flag set stands for.
    closed spec fn view(&self) -> u8 {
        self.bits
    }
}

impl LsrFlags {
    /// Builds the view from a raw register byte; every bit is a
    /// defined flag, so nothing is truncated and nothing can fail.
    pub fn from_bits_truncate(bits: u8) -> (r: Self)
        ensures
            r@ == bits,
    {
        LsrFlags { bits }
    }

    /// The raw byte.
    pub fn bits(self) -> (r: u8)
        ensures
            r == self@,
    {
        self.bits
    }

    /// Whether the flag is set.
    pub fn contains(self, flag: LsrFlag) -> (r: bool)
        ensures
            r == (self@ & flag.spec_mask() != 0),
    {
        self.bits & flag.mask() != 0
    }
}

/// One flag of the Modem Status Register.
#[derive(Copy, Clone, Debug, PartialEq, Eq, Structural)]
pub enum MsrFlag {
    /// Delta Clear To Send (bit 0)
    DeltaClearToSend,
    /// Delta Data Set Ready (bit 1)
    DeltaDataSetReady,
    /// Trailing Edge Ring Indicator (bit 2)
    TrailingEdgeRingIndicator,
    /// Delta Data Carrier Detect (bit 3)
    DeltaDataCarrierDetect,
    /// Clear To Send (bit 4)
    ClearToSend,
    /// Data Set Ready (bit 5)
    DataSetReady,
    /// Ring Indicator (bit 6)
    RingIndicator,
    /// Carrier Detect (bit 7)
    CarrierDetect,
}

impl MsrFlag {
    /// Single-bit mask of the flag within the Modem Status byte.
    pub open spec fn spec_mask(self) -> u8 {
        match self {
            MsrFlag::DeltaClearToSend => 0x01,
            MsrFlag::DeltaDataSetReady => 0x02,
            MsrFlag::TrailingEdgeRingIndicator => 0x04,
            MsrFlag::DeltaDataCarrierDetect => 0x08,
            MsrFlag::ClearToSend => 0x10,
            MsrFlag::DataSetReady => 0x20,
            MsrFlag::RingIndicator => 0x40,
            MsrFlag::CarrierDetect => 0x80,
        }
    }

    /// Single-bit mask of the flag within the Modem Status byte.
    pub fn mask(self) -> (r: u8)
        ensures
            r == self.spec_mask(),
    {
        match self {
            MsrFlag::DeltaClearToSend => 0x01,
            MsrFlag::DeltaDataSetReady => 0x02,
            MsrFlag::TrailingEdgeRingIndicator => 0x04,
            MsrFlag::DeltaDataCarrierDetect => 0x08,
            MsrFlag::ClearToSend => 0x10,
            MsrFlag::DataSetReady => 0x20,
            MsrFlag::RingIndicator => 0x40,
            MsrFlag::CarrierDetect => 0x80,
        }
    }
}

/// Read-only flag view of the Modem Status Register. All eight bits
/// are defined, so construction keeps the byte as it is.
#[derive(Copy, Clone, Debug, PartialEq, Eq, Structural)]
pub struct MsrFlags {
    bits: u8,
}

impl View for MsrFlags {
    type V = u8;

    /// The raw byte the flag set stands for.
    closed spec fn view(&self) -> u8 {
        self.bits
    }
}

impl MsrFlags {
    /// Builds the view from a raw register byte; every bit is a
    /// defined flag, so nothing is truncated and nothing can fail.
    pub fn from_bits_truncate(bits: u8) -> (r: Self)
        ensures
            r@ == bits,
    {
        MsrFlags { bits }
    }

    /// The raw byte.
    pub fn bits(self) -> (r: u8)
        ensures
            r == self@,
    {
        self.bits
    }

    /// Whether the flag is set.
    pub fn contains(self, flag: MsrFlag) -> (r: bool)
        ensures
            r == (self@ & flag.spec_mask() != 0),
    {
        self.bits & flag.mask() != 0
    }
}

} // verus!
