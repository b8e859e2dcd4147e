//! Byte-addressed model of the 8250 register block.
//!
//! The hardware exposes eight byte-wide registers at consecutive
//! offsets from a base address. Two offsets are dual-purpose, gated
//! by the Divisor Latch Access Bit (bit 7 of the Line Control
//! Register), and one is read/write-asymmetric:
//!
//! | Offset | Read                                  | Write                                  |
//! |--------|---------------------------------------|----------------------------------------|
//! | 0      | Receive buffer / divisor low (DLAB)   | Transmit holding / divisor low (DLAB)  |
//! | 1      | Interrupt enable / divisor high (DLAB)| same                                   |
//! | 2      | Interrupt identification              | FIFO control                           |
//! | 3      | Line control                          | Line control                           |
//! | 4      | Modem control                         | Modem control                          |
//! | 5      | Line status (read-only)               | —                                      |
//! | 6      | Modem status (read-only)              | —                                      |
//! | 7      | Scratch                               | Scratch                                |
//!
//! [`RegisterBlock`] keeps one byte per distinct hardware latch and
//! resolves every access through the offset map above, so the DLAB
//! aliasing is part of its contract. It is a simulated block: the
//! fields are ordinary memory, and tests can build any hardware
//! state directly. Reads of the receive buffer are counted, since on
//! real hardware such a read consumes a FIFO entry and is therefore
//! never idempotent; the count lets callers state that a code path
//! performs no data read. Binding the same access pattern to real
//! memory-mapped registers is the unverified collaborator's job.

use vstd::prelude::*;

verus! {

/// Offset of the receive buffer / transmit holding register, or of
/// the divisor-latch low byte while DLAB is set.
pub const OFFSET_DATA: usize = 0;

/// Offset of the Interrupt Enable Register, or of the divisor-latch
/// high byte while DLAB is set.
pub const OFFSET_INTERRUPT_ENABLE: usize = 1;

/// Offset of the Interrupt Identification Register (read) and the
/// FIFO Control Register (write).
pub const OFFSET_INTERRUPT_ID: usize = 2;

/// Offset of the Line Control Register.
pub const OFFSET_LINE_CONTROL: usize = 3;

/// Offset of the Modem Control Register.
pub const OFFSET_MODEM_CONTROL: usize = 4;

/// Offset of the read-only Line Status Register.
pub const OFFSET_LINE_STATUS: usize = 5;

/// Offset of the read-only Modem Status Register.
pub const OFFSET_MODEM_STATUS: usize = 6;

/// Offset of the Scratch Register.
pub const OFFSET_SCRATCH: usize = 7;

/// Simulated 8250 register block: one field per distinct hardware
/// latch, plus a count of receive-buffer reads. All fields are
/// public so a test can stand up any hardware state.
#[derive(Copy, Clone, Debug, PartialEq, Eq, Structural)]
pub struct RegisterBlock {
    /// Receive buffer: what a data read returns.
    pub rbr: u8,
    /// Transmit holding register: the last byte written for sending.
    pub thr: u8,
    /// Divisor latch, low byte.
    pub dll: u8,
    /// Divisor latch, high byte.
    pub dlh: u8,
    /// Interrupt Enable Register.
    pub ier: u8,
    /// Interrupt Identification Register: what a read at its offset
    /// returns.
    pub iir: u8,
    /// FIFO Control Register: the last byte written at the
    /// interrupt-identification offset.
    pub fcr: u8,
    /// Line Control Register.
    pub lcr: u8,
    /// Modem Control Register.
    pub mcr: u8,
    /// Line Status Register (read-only).
    pub lsr: u8,
    /// Modem Status Register (read-only).
    pub msr: u8,
    /// Scratch Register.
    pub scratch: u8,
    /// How many times the receive buffer has been read, wrapping on
    /// overflow. On hardware each such read consumes a FIFO entry.
    pub rbr_reads: u64,
}

impl RegisterBlock {
    /// Whether the Divisor Latch Access Bit (bit 7 of the Line
    /// Control Register) is set, reinterpreting offsets 0 and 1 as
    /// divisor bytes.
    pub open spec fn spec_dlab(self) -> bool {
        self.lcr & 0x80 != 0
    }

    /// The block after one receive-buffer read: only the read count
    /// moves, wrapping to zero when it is exhausted.
    pub open spec fn spec_after_data_read(self) -> RegisterBlock {
        RegisterBlock {
            rbr_reads: (if self.rbr_reads == u64::MAX {
                0u64
            } else {
                (self.rbr_reads + 1) as u64
            }),
            ..self
        }
    }

    /// A fully zeroed block, as a reset simulation starts out.
    pub fn new() -> (r: Self)
        ensures
            r == (RegisterBlock {
                rbr: 0,
                thr: 0,
                dll: 0,
                dlh: 0,
                ier: 0,
                iir: 0,
                fcr: 0,
                lcr: 0,
                mcr: 0,
                lsr: 0,
                msr: 0,
                scratch: 0,
                rbr_reads: 0,
            }),
    {
        RegisterBlock {
            rbr: 0,
            thr: 0,
            dll: 0,
            dlh: 0,
            ier: 0,
            iir: 0,
            fcr: 0,
            lcr: 0,
            mcr: 0,
            lsr: 0,
            msr: 0,
            scratch: 0,
            rbr_reads: 0,
        }
    }

    /// Reads the register at an offset, resolving the DLAB-gated
    /// aliasing of offsets 0 and 1. Only a receive-buffer read
    /// changes the block, and only its read count.
    pub fn read(&mut self, offset: usize) -> (r: u8)
        requires
            offset < 8,
        ensures
            offset == OFFSET_DATA && !old(self).spec_dlab() ==> r == old(self).rbr && *final(self)
                == old(self).spec_after_data_read(),
            offset == OFFSET_DATA && old(self).spec_dlab() ==> r == old(self).dll && *final(self)
                == *old(self),
            offset == OFFSET_INTERRUPT_ENABLE && !old(self).spec_dlab() ==> r == old(self).ier
                && *final(self) == *old(self),
            offset == OFFSET_INTERRUPT_ENABLE && old(self).spec_dlab() ==> r == old(self).dlh
                && *final(self) == *old(self),
            offset == OFFSET_INTERRUPT_ID ==> r == old(self).iir && *final(self) == *old(self),
            offset == OFFSET_LINE_CONTROL ==> r == old(self).lcr && *final(self) == *old(self),
            offset == OFFSET_MODEM_CONTROL ==> r == old(self).mcr && *final(self) == *old(self),
            offset == OFFSET_LINE_STATUS ==> r == old(self).lsr && *final(self) == *old(self),
            offset == OFFSET_MODEM_STATUS ==> r == old(self).msr && *final(self) == *old(self),
            offset == OFFSET_SCRATCH ==> r == old(self).scratch && *final(self) == *old(self),
    {
        if offset == OFFSET_DATA {
            if self.lcr & 0x80 != 0 {
                self.dll
            } else {
                let value = self.rbr;
                if self.rbr_reads == u64::MAX {
                    self.rbr_reads = 0;
                } else {
                    self.rbr_reads = self.rbr_reads + 1;
                }
                value
            }
        } else if offset == OFFSET_INTERRUPT_ENABLE {
            if self.lcr & 0x80 != 0 {
                self.dlh
            } else {
                self.ier
            }
        } else if offset == OFFSET_INTERRUPT_ID {
            self.iir
        } else if offset == OFFSET_LINE_CONTROL {
            self.lcr
        } else if offset == OFFSET_MODEM_CONTROL {
            self.mcr
        } else if offset == OFFSET_LINE_STATUS {
            self.lsr
        } else if offset == OFFSET_MODEM_STATUS {
            self.msr
        } else {
            self.scratch
        }
    }

    /// Writes the register at an offset, resolving the DLAB-gated
    /// aliasing of offsets 0 and 1 and the read/write asymmetry of
    /// offset 2. The line-status and modem-status offsets are
    /// read-only and cannot be written.
    pub fn write(&mut self, offset: usize, value: u8)
        requires
            offset < 8,
            offset != OFFSET_LINE_STATUS,
            offset != OFFSET_MODEM_STATUS,
        ensures
            offset == OFFSET_DATA && !old(self).spec_dlab() ==> *final(self) == (RegisterBlock {
                thr: value,
                ..*old(self)
            }),
            offset == OFFSET_DATA && old(self).spec_dlab() ==> *final(self) == (RegisterBlock {
                dll: value,
                ..*old(self)
            }),
            offset == OFFSET_INTERRUPT_ENABLE && !old(self).spec_dlab() ==> *final(self) == (
            RegisterBlock { ier: value, ..*old(self) }),
            offset == OFFSET_INTERRUPT_ENABLE && old(self).spec_dlab() ==> *final(self) == (
            RegisterBlock { dlh: value, ..*old(self) }),
            offset == OFFSET_INTERRUPT_ID ==> *final(self) == (RegisterBlock {
                fcr: value,
                ..*old(self)
            }),
            offset == OFFSET_LINE_CONTROL ==> *final(self) == (RegisterBlock {
                lcr: value,
                ..*old(self)
            }),
            offset == OFFSET_MODEM_CONTROL ==> *final(self) == (RegisterBlock {
                mcr: value,
                ..*old(self)
            }),
            offset == OFFSET_SCRATCH ==> *final(self) == (RegisterBlock {
                scratch: value,
                ..*old(self)
            }),
    {
        if offset == OFFSET_DATA {
            if self.lcr & 0x80 != 0 {
                self.dll = value;
            } else {
                self.thr = value;
            }
        } else if offset == OFFSET_INTERRUPT_ENABLE {
            if self.lcr & 0x80 != 0 {
                self.dlh = value;
            } else {
                self.ier = value;
            }
        } else if offset == OFFSET_INTERRUPT_ID {
            self.fcr = value;
        } else if offset == OFFSET_LINE_CONTROL {
            self.lcr = value;
        } else if offset == OFFSET_MODEM_CONTROL {
            self.mcr = value;
        } else {
            self.scratch = value;
        }
    }
}

} // verus!
