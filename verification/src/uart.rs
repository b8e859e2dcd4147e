//! The UART handle: byte I/O and one-call initialisation composed
//! from the register codecs.
//!
//! [`MmioUart8250`] drives one [`RegisterBlock`]. All true state
//! lives in the registers; the handle adds none of its own. Every
//! method states exactly which registers it reads and writes, so the
//! multi-step sequences (divisor programming under a DLAB window,
//! read-modify-write of single flags) are pinned down register by
//! register. None of the sequences is atomic: a concurrent writer to
//! the same block must be excluded by the caller.
//!
//! Methods that use the data path (receive buffer, transmit holding
//! register, interrupt enable) require the Divisor Latch Access Bit
//! to be clear, and the raw divisor-latch accessors require it set:
//! offsets 0 and 1 are ambiguous otherwise.

use vstd::prelude::*;

use crate::divisor;
use crate::flags::{IerFlag, IerFlags, LsrFlag, LsrFlags, MsrFlag, MsrFlags};
use crate::interrupt;
use crate::interrupt::{ChipFifoInfo, InterruptType};
use crate::line_control;
use crate::line_control::{InvalidFieldValue, Parity};
use crate::registers::{
    RegisterBlock, OFFSET_DATA, OFFSET_INTERRUPT_ENABLE, OFFSET_INTERRUPT_ID, OFFSET_LINE_CONTROL,
    OFFSET_LINE_STATUS, OFFSET_MODEM_CONTROL, OFFSET_MODEM_STATUS, OFFSET_SCRATCH,
};

verus! {

/// An Interrupt Enable byte read back from the register, truncated
/// to the six defined flags as every read-modify-write cycle
/// truncates it.
pub open spec fn spec_ier_truncated(ier: u8) -> u8 {
    ier & 0x3f
}

/// The Interrupt Enable byte written back when one flag is enabled:
/// the truncated current byte with the flag's bit set.
pub open spec fn spec_ier_with(ier: u8, mask: u8) -> u8 {
    (ier & 0x3f) | mask
}

/// The Interrupt Enable byte written back when one flag is disabled:
/// the truncated current byte with the flag's bit cleared.
pub open spec fn spec_ier_without(ier: u8, mask: u8) -> u8 {
    (ier & 0x3f) & !mask
}

/// The Interrupt Enable byte written back when one flag is toggled:
/// the truncated current byte with the flag's bit inverted.
pub open spec fn spec_ier_toggled(ier: u8, mask: u8) -> u8 {
    (ier & 0x3f) ^ mask
}

/// Law: toggling one Interrupt Enable flag twice restores the
/// original register byte. This holds for bytes whose reserved bits
/// (7 and 6) are clear: the write-back truncates those bits, so a
/// byte carrying them is not restored.
pub proof fn lemma_ier_toggle_twice_restores(ier: u8, mask: u8)
    requires
        ier & 0xc0 == 0,
        mask & 0xc0 == 0,
    ensures
        spec_ier_toggled(spec_ier_toggled(ier, mask), mask) == ier,
{
    assert(ier & 0xc0 == 0 && mask & 0xc0 == 0 ==> ((((ier & 0x3f) ^ mask) & 0x3f) ^ mask) == ier)
        by (bit_vector);
}

/// A handle driving one 8250 register block.
pub struct MmioUart8250 {
    /// The register block the handle is bound to.
    pub reg: RegisterBlock,
}

impl MmioUart8250 {
    /// Creates a UART handle over a register block. Binding a block
    /// to a real base address is the unverified collaborator's job.
    pub fn new(reg: RegisterBlock) -> (r: Self)
        ensures
            r.reg == reg,
    {
        MmioUart8250 { reg }
    }

    /// Rebinds the handle to another register block, the analogue of
    /// pointing it at a new base address.
    pub fn set_register_block(&mut self, reg: RegisterBlock)
        ensures
            final(self).reg == reg,
    {
        self.reg = reg;
    }

    /// Initialises the UART with common settings: programs the
    /// divisor for the requested baud rate, sets 8 data bits, no
    /// parity and one stop bit, enables the FIFOs, clears all
    /// modem-control lines, and enables the received-data-available
    /// interrupt. A policy default, not a hardware requirement.
    pub fn init(&mut self, clock: usize, baud_rate: usize)
        requires
            baud_rate >= 1,
            16 * baud_rate <= usize::MAX,
        ensures
            final(self).reg == (RegisterBlock {
                dll: divisor::spec_divisor_low(
                    divisor::spec_divisor(clock as int, baud_rate as int),
                ),
                dlh: divisor::spec_divisor_high(
                    divisor::spec_divisor(clock as int, baud_rate as int),
                ),
                lcr: 0x03,
                fcr: 0x01,
                mcr: 0x00,
                ier: spec_ier_with(old(self).reg.ier, 0x01),
                ..old(self).reg
            }),
    {
        // Set the divisor under a DLAB window.
        self.set_divisor(clock, baud_rate);
        // Word length 8, no parity, one stop bit, DLAB clear.
        self.write_lcr(0x03);
        proof {
            assert(0x03u8 & 0x80 == 0) by (bit_vector);
        }
        // Enable FIFOs.
        self.write_fcr(0x01);
        // No modem control lines.
        self.write_mcr(0x00);
        self.enable_received_data_available_interrupt();
    }

    /// Reads one byte if the line status reports data ready, else
    /// reports the normal poll-miss outcome `None`. Exactly one
    /// status read happens, and the receive buffer is read only on
    /// success.
    pub fn read_byte(&mut self) -> (r: Option<u8>)
        requires
            !old(self).reg.spec_dlab(),
        ensures
            old(self).reg.lsr & 0x01 != 0 ==> r == Some(old(self).reg.rbr) && final(self).reg
                == old(self).reg.spec_after_data_read(),
            old(self).reg.lsr & 0x01 == 0 ==> r is None && *final(self) == *old(self),
    {
        if self.is_data_ready() {
            Some(self.read_rbr())
        } else {
            None
        }
    }

    /// Writes one byte to the transmit holding register,
    /// unconditionally: no "transmitter empty" check happens first,
    /// so flow control is the caller's business, or the byte may be
    /// lost per hardware semantics.
    pub fn write_byte(&mut self, byte: u8)
        requires
            !old(self).reg.spec_dlab(),
        ensures
            final(self).reg == (RegisterBlock { thr: byte, ..old(self).reg }),
    {
        self.write_thr(byte);
    }

    /// Writes the transmit holding register (offset 0, DLAB clear).
    pub fn write_thr(&mut self, value: u8)
        requires
            !old(self).reg.spec_dlab(),
        ensures
            final(self).reg == (RegisterBlock { thr: value, ..old(self).reg }),
    {
        self.reg.write(OFFSET_DATA, value);
    }

    /// Reads the receive buffer (offset 0, DLAB clear), consuming
    /// one datum: the block's data-read count moves.
    pub fn read_rbr(&mut self) -> (r: u8)
        requires
            !old(self).reg.spec_dlab(),
        ensures
            r == old(self).reg.rbr,
            final(self).reg == old(self).reg.spec_after_data_read(),
    {
        self.reg.read(OFFSET_DATA)
    }

    /// Reads the divisor-latch low byte (offset 0, DLAB set).
    pub fn read_dll(&mut self) -> (r: u8)
        requires
            old(self).reg.spec_dlab(),
        ensures
            r == old(self).reg.dll,
            *final(self) == *old(self),
    {
        self.reg.read(OFFSET_DATA)
    }

    /// Writes the divisor-latch low byte (offset 0, DLAB set).
    pub fn write_dll(&mut self, value: u8)
        requires
            old(self).reg.spec_dlab(),
        ensures
            final(self).reg == (RegisterBlock { dll: value, ..old(self).reg }),
    {
        self.reg.write(OFFSET_DATA, value);
    }

    /// Reads the divisor-latch high byte (offset 1, DLAB set).
    pub fn read_dlh(&mut self) -> (r: u8)
        requires
            old(self).reg.spec_dlab(),
        ensures
            r == old(self).reg.dlh,
            *final(self) == *old(self),
    {
        self.reg.read(OFFSET_INTERRUPT_ENABLE)
    }

    /// Writes the divisor-latch high byte (offset 1, DLAB set).
    pub fn write_dlh(&mut self, value: u8)
        requires
            old(self).reg.spec_dlab(),
        ensures
            final(self).reg == (RegisterBlock { dlh: value, ..old(self).reg }),
    {
        self.reg.write(OFFSET_INTERRUPT_ENABLE, value);
    }

    /// Programs the divisor latch for a clock and a target baud
    /// rate, then clears DLAB: sets DLAB, writes the low and the
    /// high divisor byte, clears DLAB, in that order and with no
    /// other register access between. A divisor of zero (baud rate
    /// larger than a sixteenth of the clock) is hardware-invalid and
    /// not rejected here; that check is the caller's obligation.
    pub fn set_divisor(&mut self, clock: usize, baud_rate: usize)
        requires
            baud_rate >= 1,
            16 * baud_rate <= usize::MAX,
        ensures
            final(self).reg == (RegisterBlock {
                lcr: old(self).reg.lcr & 0x7f,
                dll: divisor::spec_divisor_low(
                    divisor::spec_divisor(clock as int, baud_rate as int),
                ),
                dlh: divisor::spec_divisor_high(
                    divisor::spec_divisor(clock as int, baud_rate as int),
                ),
                ..old(self).reg
            }),
    {
        self.enable_divisor_latch_accessible();
        let d = divisor::divisor_for(clock, baud_rate);
        self.write_dll(divisor::divisor_low(d));
        self.write_dlh(divisor::divisor_high(d));
        self.disable_divisor_latch_accessible();
        proof {
            let lcr = old(self).reg.lcr;
            assert((lcr | 0x80) & 0x7f == lcr & 0x7f) by (bit_vector);
        }
    }

    /// Reads the Line Control Register.
    pub fn read_lcr(&mut self) -> (r: u8)
        ensures
            r == old(self).reg.lcr,
            *final(self) == *old(self),
    {
        self.reg.read(OFFSET_LINE_CONTROL)
    }

    /// Writes the Line Control Register whole, DLAB included.
    pub fn write_lcr(&mut self, value: u8)
        ensures
            final(self).reg == (RegisterBlock { lcr: value, ..old(self).reg }),
    {
        self.reg.write(OFFSET_LINE_CONTROL, value);
    }

    /// Whether the Divisor Latch Access Bit is set, so offsets 0 and
    /// 1 currently address the divisor latch.
    pub fn is_divisor_latch_accessible(&mut self) -> (r: bool)
        ensures
            r == old(self).reg.spec_dlab(),
            *final(self) == *old(self),
    {
        let lcr = self.reg.read(OFFSET_LINE_CONTROL);
        line_control::dlab_of(lcr)
    }

    /// Inverts the Divisor Latch Access Bit, preserving the rest of
    /// the Line Control Register.
    pub fn toggle_divisor_latch_accessible(&mut self)
        ensures
            final(self).reg == (RegisterBlock { lcr: old(self).reg.lcr ^ 0x80, ..old(self).reg }),
    {
        let lcr = self.reg.read(OFFSET_LINE_CONTROL);
        self.reg.write(OFFSET_LINE_CONTROL, lcr ^ 0x80);
    }

    /// Sets the Divisor Latch Access Bit, preserving the rest of the
    /// Line Control Register.
    pub fn enable_divisor_latch_accessible(&mut self)
        ensures
            final(self).reg == (RegisterBlock { lcr: old(self).reg.lcr | 0x80, ..old(self).reg }),
            final(self).reg.spec_dlab(),
    {
        let lcr = self.reg.read(OFFSET_LINE_CONTROL);
        self.reg.write(OFFSET_LINE_CONTROL, lcr | 0x80);
        proof {
            let v = old(self).reg.lcr;
            assert((v | 0x80) & 0x80 != 0) by (bit_vector);
        }
    }

    /// Clears the Divisor Latch Access Bit, preserving the rest of
    /// the Line Control Register.
    pub fn disable_divisor_latch_accessible(&mut self)
        ensures
            final(self).reg == (RegisterBlock { lcr: old(self).reg.lcr & 0x7f, ..old(self).reg }),
            !final(self).reg.spec_dlab(),
    {
        let lcr = self.reg.read(OFFSET_LINE_CONTROL);
        self.reg.write(OFFSET_LINE_CONTROL, lcr & 0x7f);
        proof {
            let v = old(self).reg.lcr;
            assert((v & 0x7f) & 0x80 == 0) by (bit_vector);
        }
    }

    /// Decodes the parity mode from the Line Control Register;
    /// `None` for the three reserved patterns, which this codec
    /// never writes (the hardware documentation gives them no
    /// meaning, so none is guessed).
    pub fn get_parity(&mut self) -> (r: Option<Parity>)
        ensures
            r == line_control::spec_parity_of(old(self).reg.lcr),
            *final(self) == *old(self),
    {
        let lcr = self.reg.read(OFFSET_LINE_CONTROL);
        line_control::parity_of(lcr)
    }

    /// Sets the parity mode, preserving all unrelated Line Control
    /// bits; cannot fail, the five modes are the whole legal set.
    pub fn set_parity(&mut self, parity: Parity)
        ensures
            final(self).reg == (RegisterBlock {
                lcr: line_control::spec_with_parity(old(self).reg.lcr, parity),
                ..old(self).reg
            }),
    {
        let lcr = self.reg.read(OFFSET_LINE_CONTROL);
        self.reg.write(OFFSET_LINE_CONTROL, line_control::with_parity(lcr, parity));
    }

    /// Decodes the stop-bit count from the Line Control Register: 1,
    /// or 2 standing for the hardware's "1.5 or 2" setting.
    pub fn get_stop_bit(&mut self) -> (r: u8)
        ensures
            r == line_control::spec_stop_bits_of(old(self).reg.lcr),
            r == 1 || r == 2,
            *final(self) == *old(self),
    {
        let lcr = self.reg.read(OFFSET_LINE_CONTROL);
        line_control::stop_bits_of(lcr)
    }

    /// Sets the stop-bit count, preserving all unrelated Line
    /// Control bits; counts outside {1, 2} are rejected and the
    /// registers stay as they were.
    pub fn set_stop_bit(&mut self, stop_bit: u8) -> (r: Result<(), InvalidFieldValue>)
        ensures
            stop_bit == 1 || stop_bit == 2 ==> r is Ok && final(self).reg == (RegisterBlock {
                lcr: line_control::spec_with_stop_bits(old(self).reg.lcr, stop_bit),
                ..old(self).reg
            }),
            !(stop_bit == 1 || stop_bit == 2) ==> r == Err::<(), InvalidFieldValue>(
                InvalidFieldValue,
            ) && *final(self) == *old(self),
    {
        let lcr = self.reg.read(OFFSET_LINE_CONTROL);
        match line_control::with_stop_bits(lcr, stop_bit) {
            Ok(value) => {
                self.reg.write(OFFSET_LINE_CONTROL, value);
                Ok(())
            },
            Err(e) => Err(e),
        }
    }

    /// Decodes the word length from the Line Control Register, in
    /// bits per character, always 5..=8.
    pub fn get_word_length(&mut self) -> (r: u8)
        ensures
            r == line_control::spec_word_length_of(old(self).reg.lcr),
            5 <= r <= 8,
            *final(self) == *old(self),
    {
        let lcr = self.reg.read(OFFSET_LINE_CONTROL);
        line_control::word_length_of(lcr)
    }

    /// Sets the word length, preserving all unrelated Line Control
    /// bits; lengths outside 5..=8 are rejected and the registers
    /// stay as they were.
    pub fn set_word_length(&mut self, length: u8) -> (r: Result<(), InvalidFieldValue>)
        ensures
            5 <= length <= 8 ==> r is Ok && final(self).reg == (RegisterBlock {
                lcr: line_control::spec_with_word_length(old(self).reg.lcr, length),
                ..old(self).reg
            }),
            !(5 <= length <= 8) ==> r == Err::<(), InvalidFieldValue>(InvalidFieldValue)
                && *final(self) == *old(self),
    {
        let lcr = self.reg.read(OFFSET_LINE_CONTROL);
        match line_control::with_word_length(lcr, length) {
            Ok(value) => {
                self.reg.write(OFFSET_LINE_CONTROL, value);
                Ok(())
            },
            Err(e) => Err(e),
        }
    }

    /// Reads the Interrupt Enable Register (offset 1, DLAB clear).
    pub fn read_ier(&mut self) -> (r: u8)
        requires
            !old(self).reg.spec_dlab(),
        ensures
            r == old(self).reg.ier,
            *final(self) == *old(self),
    {
        self.reg.read(OFFSET_INTERRUPT_ENABLE)
    }

    /// Writes the Interrupt Enable Register whole (offset 1, DLAB
    /// clear).
    pub fn write_ier(&mut self, value: u8)
        requires
            !old(self).reg.spec_dlab(),
        ensures
            final(self).reg == (RegisterBlock { ier: value, ..old(self).reg }),
    {
        self.reg.write(OFFSET_INTERRUPT_ENABLE, value);
    }

    /// The Interrupt Enable Register as a flag view, reserved bits
    /// truncated.
    pub fn ier(&mut self) -> (r: IerFlags)
        requires
            !old(self).reg.spec_dlab(),
        ensures
            r@ == spec_ier_truncated(old(self).reg.ier),
            r.wf(),
            *final(self) == *old(self),
    {
        let bits = self.reg.read(OFFSET_INTERRUPT_ENABLE);
        IerFlags::from_bits_truncate(bits)
    }

    /// Writes a complete flag set to the Interrupt Enable Register.
    /// The write is a full eight-bit store: the caller supplies the
    /// whole desired set, no read-modify-write is involved.
    pub fn set_ier(&mut self, flags: IerFlags)
        requires
            !old(self).reg.spec_dlab(),
        ensures
            final(self).reg == (RegisterBlock { ier: flags@, ..old(self).reg }),
    {
        self.reg.write(OFFSET_INTERRUPT_ENABLE, flags.bits());
    }

    /// Whether low power mode (16750) is enabled (bit 5).
    pub fn is_low_power_mode_enabled(&mut self) -> (r: bool)
        requires
            !old(self).reg.spec_dlab(),
        ensures
            r == (old(self).reg.ier & 0x20 != 0),
            *final(self) == *old(self),
    {
        proof {
            lemma_ier_truncated_bit_tests(old(self).reg.ier);
        }
        self.ier().contains(IerFlag::LowPowerMode)
    }

    /// Toggles low power mode (16750) by a read-modify-write of the
    /// Interrupt Enable Register; not atomic against a concurrent
    /// writer.
    pub fn toggle_low_power_mode(&mut self)
        requires
            !old(self).reg.spec_dlab(),
        ensures
            final(self).reg == (RegisterBlock {
                ier: spec_ier_toggled(old(self).reg.ier, 0x20),
                ..old(self).reg
            }),
    {
        let flags = self.ier();
        self.set_ier(flags.toggled(IerFlag::LowPowerMode));
    }

    /// Enables low power mode (16750).
    pub fn enable_low_power_mode(&mut self)
        requires
            !old(self).reg.spec_dlab(),
        ensures
            final(self).reg == (RegisterBlock {
                ier: spec_ier_with(old(self).reg.ier, 0x20),
                ..old(self).reg
            }),
    {
        let flags = self.ier();
        self.set_ier(flags.with(IerFlag::LowPowerMode));
    }

    /// Disables low power mode (16750).
    pub fn disable_low_power_mode(&mut self)
        requires
            !old(self).reg.spec_dlab(),
        ensures
            final(self).reg == (RegisterBlock {
                ier: spec_ier_without(old(self).reg.ier, 0x20),
                ..old(self).reg
            }),
    {
        let flags = self.ier();
        self.set_ier(flags.without(IerFlag::LowPowerMode));
    }

    /// Whether sleep mode (16750) is enabled (bit 4).
    pub fn is_sleep_mode_enabled(&mut self) -> (r: bool)
        requires
            !old(self).reg.spec_dlab(),
        ensures
            r == (old(self).reg.ier & 0x10 != 0),
            *final(self) == *old(self),
    {
        proof {
            lemma_ier_truncated_bit_tests(old(self).reg.ier);
        }
        self.ier().contains(IerFlag::SleepMode)
    }

    /// Toggles sleep mode (16750) by a read-modify-write of the
    /// Interrupt Enable Register; not atomic against a concurrent
    /// writer.
    pub fn toggle_sleep_mode(&mut self)
        requires
            !old(self).reg.spec_dlab(),
        ensures
            final(self).reg == (RegisterBlock {
                ier: spec_ier_toggled(old(self).reg.ier, 0x10),
                ..old(self).reg
            }),
    {
        let flags = self.ier();
        self.set_ier(flags.toggled(IerFlag::SleepMode));
    }

    /// Enables sleep mode (16750).
    pub fn enable_sleep_mode(&mut self)
        requires
            !old(self).reg.spec_dlab(),
        ensures
            final(self).reg == (RegisterBlock {
                ier: spec_ier_with(old(self).reg.ier, 0x10),
                ..old(self).reg
            }),
    {
        let flags = self.ier();
        self.set_ier(flags.with(IerFlag::SleepMode));
    }

    /// Disables sleep mode (16750).
    pub fn disable_sleep_mode(&mut self)
        requires
            !old(self).reg.spec_dlab(),
        ensures
            final(self).reg == (RegisterBlock {
                ier: spec_ier_without(old(self).reg.ier, 0x10),
                ..old(self).reg
            }),
    {
        let flags = self.ier();
        self.set_ier(flags.without(IerFlag::SleepMode));
    }

    /// Whether the modem status interrupt is enabled (bit 3).
    pub fn is_modem_status_interrupt_enabled(&mut self) -> (r: bool)
        requires
            !old(self).reg.spec_dlab(),
        ensures
            r == (old(self).reg.ier & 0x08 != 0),
            *final(self) == *old(self),
    {
        proof {
            lemma_ier_truncated_bit_tests(old(self).reg.ier);
        }
        self.ier().contains(IerFlag::ModemStatus)
    }

    /// Toggles the modem status interrupt by a read-modify-write of
    /// the Interrupt Enable Register; not atomic against a
    /// concurrent writer.
    pub fn toggle_modem_status_interrupt(&mut self)
        requires
            !old(self).reg.spec_dlab(),
        ensures
            final(self).reg == (RegisterBlock {
                ier: spec_ier_toggled(old(self).reg.ier, 0x08),
                ..old(self).reg
            }),
    {
        let flags = self.ier();
        self.set_ier(flags.toggled(IerFlag::ModemStatus));
    }

    /// Enables the modem status interrupt.
    pub fn enable_modem_status_interrupt(&mut self)
        requires
            !old(self).reg.spec_dlab(),
        ensures
            final(self).reg == (RegisterBlock {
                ier: spec_ier_with(old(self).reg.ier, 0x08),
                ..old(self).reg
            }),
    {
        let flags = self.ier();
        self.set_ier(flags.with(IerFlag::ModemStatus));
    }

    /// Disables the modem status interrupt.
    pub fn disable_modem_status_interrupt(&mut self)
        requires
            !old(self).reg.spec_dlab(),
        ensures
            final(self).reg == (RegisterBlock {
                ier: spec_ier_without(old(self).reg.ier, 0x08),
                ..old(self).reg
            }),
    {
        let flags = self.ier();
        self.set_ier(flags.without(IerFlag::ModemStatus));
    }

    /// Whether the receiver line status interrupt is enabled (bit 2).
    pub fn is_receiver_line_status_interrupt_enabled(&mut self) -> (r: bool)
        requires
            !old(self).reg.spec_dlab(),
        ensures
            r == (old(self).reg.ier & 0x04 != 0),
            *final(self) == *old(self),
    {
        proof {
            lemma_ier_truncated_bit_tests(old(self).reg.ier);
        }
        self.ier().contains(IerFlag::ReceiverLineStatus)
    }

    /// Toggles the receiver line status interrupt by a
    /// read-modify-write of the Interrupt Enable Register; not
    /// atomic against a concurrent writer.
    pub fn toggle_receiver_line_status_interrupt(&mut self)
        requires
            !old(self).reg.spec_dlab(),
        ensures
            final(self).reg == (RegisterBlock {
                ier: spec_ier_toggled(old(self).reg.ier, 0x04),
                ..old(self).reg
            }),
    {
        let flags = self.ier();
        self.set_ier(flags.toggled(IerFlag::ReceiverLineStatus));
    }

    /// Enables the receiver line status interrupt.
    pub fn enable_receiver_line_status_interrupt(&mut self)
        requires
            !old(self).reg.spec_dlab(),
        ensures
            final(self).reg == (RegisterBlock {
                ier: spec_ier_with(old(self).reg.ier, 0x04),
                ..old(self).reg
            }),
    {
        let flags = self.ier();
        self.set_ier(flags.with(IerFlag::ReceiverLineStatus));
    }

    /// Disables the receiver line status interrupt.
    pub fn disable_receiver_line_status_interrupt(&mut self)
        requires
            !old(self).reg.spec_dlab(),
        ensures
            final(self).reg == (RegisterBlock {
                ier: spec_ier_without(old(self).reg.ier, 0x04),
                ..old(self).reg
            }),
    {
        let flags = self.ier();
        self.set_ier(flags.without(IerFlag::ReceiverLineStatus));
    }

    /// Whether the transmitter-holding-register-empty interrupt is
    /// enabled (bit 1).
    pub fn is_transmitter_holding_register_empty_interrupt_enabled(&mut self) -> (r: bool)
        requires
            !old(self).reg.spec_dlab(),
        ensures
            r == (old(self).reg.ier & 0x02 != 0),
            *final(self) == *old(self),
    {
        proof {
            lemma_ier_truncated_bit_tests(old(self).reg.ier);
        }
        self.ier().contains(IerFlag::TransmitterHoldingRegisterEmpty)
    }

    /// Toggles the transmitter-holding-register-empty interrupt by a
    /// read-modify-write of the Interrupt Enable Register; not
    /// atomic against a concurrent writer.
    pub fn toggle_transmitter_holding_register_empty_interrupt(&mut self)
        requires
            !old(self).reg.spec_dlab(),
        ensures
            final(self).reg == (RegisterBlock {
                ier: spec_ier_toggled(old(self).reg.ier, 0x02),
                ..old(self).reg
            }),
    {
        let flags = self.ier();
        self.set_ier(flags.toggled(IerFlag::TransmitterHoldingRegisterEmpty));
    }

    /// Enables the transmitter-holding-register-empty interrupt.
    pub fn enable_transmitter_holding_register_empty_interrupt(&mut self)
        requires
            !old(self).reg.spec_dlab(),
        ensures
            final(self).reg == (RegisterBlock {
                ier: spec_ier_with(old(self).reg.ier, 0x02),
                ..old(self).reg
            }),
    {
        let flags = self.ier();
        self.set_ier(flags.with(IerFlag::TransmitterHoldingRegisterEmpty));
    }

    /// Disables the transmitter-holding-register-empty interrupt.
    pub fn disable_transmitter_holding_register_empty_interrupt(&mut self)
        requires
            !old(self).reg.spec_dlab(),
        ensures
            final(self).reg == (RegisterBlock {
                ier: spec_ier_without(old(self).reg.ier, 0x02),
                ..old(self).reg
            }),
    {
        let flags = self.ier();
        self.set_ier(flags.without(IerFlag::TransmitterHoldingRegisterEmpty));
    }

    /// Whether the received-data-available interrupt is enabled
    /// (bit 0).
    pub fn is_received_data_available_interrupt_enabled(&mut self) -> (r: bool)
        requires
            !old(self).reg.spec_dlab(),
        ensures
            r == (old(self).reg.ier & 0x01 != 0),
            *final(self) == *old(self),
    {
        proof {
            lemma_ier_truncated_bit_tests(old(self).reg.ier);
        }
        self.ier().contains(IerFlag::ReceivedDataAvailable)
    }

    /// Toggles the received-data-available interrupt by a
    /// read-modify-write of the Interrupt Enable Register; not
    /// atomic against a concurrent writer.
    pub fn toggle_received_data_available_interrupt(&mut self)
        requires
            !old(self).reg.spec_dlab(),
        ensures
            final(self).reg == (RegisterBlock {
                ier: spec_ier_toggled(old(self).reg.ier, 0x01),
                ..old(self).reg
            }),
    {
        let flags = self.ier();
        self.set_ier(flags.toggled(IerFlag::ReceivedDataAvailable));
    }

    /// Enables the received-data-available interrupt.
    pub fn enable_received_data_available_interrupt(&mut self)
        requires
            !old(self).reg.spec_dlab(),
        ensures
            final(self).reg == (RegisterBlock {
                ier: spec_ier_with(old(self).reg.ier, 0x01),
                ..old(self).reg
            }),
    {
        let flags = self.ier();
        self.set_ier(flags.with(IerFlag::ReceivedDataAvailable));
    }

    /// Disables the received-data-available interrupt.
    pub fn disable_received_data_available_interrupt(&mut self)
        requires
            !old(self).reg.spec_dlab(),
        ensures
            final(self).reg == (RegisterBlock {
                ier: spec_ier_without(old(self).reg.ier, 0x01),
                ..old(self).reg
            }),
    {
        let flags = self.ier();
        self.set_ier(flags.without(IerFlag::ReceivedDataAvailable));
    }

    /// Reads the Interrupt Identification Register raw. Hazard, on
    /// real hardware: this read clears a pending
    /// transmitter-holding-register-empty cause.
    pub fn read_iir(&mut self) -> (r: u8)
        ensures
            r == old(self).reg.iir,
            *final(self) == *old(self),
    {
        self.reg.read(OFFSET_INTERRUPT_ID)
    }

    /// Decodes the FIFO capability state from bits 7..6 of the
    /// Interrupt Identification Register; total, cannot fail.
    pub fn read_fifo_status(&mut self) -> (r: ChipFifoInfo)
        ensures
            r == interrupt::spec_fifo_info_of(old(self).reg.iir),
            *final(self) == *old(self),
    {
        let iir = self.reg.read(OFFSET_INTERRUPT_ID);
        interrupt::fifo_info_of(iir)
    }

    /// Whether the 64-byte FIFO (16750 only) is enabled (bit 5 of
    /// the Interrupt Identification Register).
    pub fn is_64byte_fifo_enabled(&mut self) -> (r: bool)
        ensures
            r == interrupt::spec_fifo_64_byte_of(old(self).reg.iir),
            *final(self) == *old(self),
    {
        let iir = self.reg.read(OFFSET_INTERRUPT_ID);
        interrupt::fifo_64_byte_of(iir)
    }

    /// Decodes the interrupt cause from the Interrupt Identification
    /// Register; `None` means no interrupt is pending. Each cause
    /// has its own documented reset method; the
    /// transmitter-holding-register-empty cause is cleared by this
    /// very read, so a single call consumes it.
    pub fn read_interrupt_type(&mut self) -> (r: Option<InterruptType>)
        ensures
            r == interrupt::spec_interrupt_type_of(old(self).reg.iir),
            *final(self) == *old(self),
    {
        let iir = self.reg.read(OFFSET_INTERRUPT_ID);
        interrupt::interrupt_type_of(iir)
    }

    /// Whether an interrupt is pending (bit 0 of the Interrupt
    /// Identification Register, inverted logic). The read carries
    /// the same hazard as [`Self::read_iir`]; when the cause is
    /// wanted too, [`Self::read_interrupt_type`] answers both in one
    /// read.
    pub fn is_interrupt_pending(&mut self) -> (r: bool)
        ensures
            r == interrupt::spec_interrupt_pending_of(old(self).reg.iir),
            *final(self) == *old(self),
    {
        let iir = self.reg.read(OFFSET_INTERRUPT_ID);
        interrupt::interrupt_pending_of(iir)
    }

    /// Writes the FIFO Control Register (the write meaning of
    /// offset 2).
    pub fn write_fcr(&mut self, value: u8)
        ensures
            final(self).reg == (RegisterBlock { fcr: value, ..old(self).reg }),
    {
        self.reg.write(OFFSET_INTERRUPT_ID, value);
    }

    /// Reads the Modem Control Register.
    pub fn read_mcr(&mut self) -> (r: u8)
        ensures
            r == old(self).reg.mcr,
            *final(self) == *old(self),
    {
        self.reg.read(OFFSET_MODEM_CONTROL)
    }

    /// Writes the Modem Control Register.
    pub fn write_mcr(&mut self, value: u8)
        ensures
            final(self).reg == (RegisterBlock { mcr: value, ..old(self).reg }),
    {
        self.reg.write(OFFSET_MODEM_CONTROL, value);
    }

    /// Reads the Line Status Register.
    pub fn read_lsr(&mut self) -> (r: u8)
        ensures
            r == old(self).reg.lsr,
            *final(self) == *old(self),
    {
        self.reg.read(OFFSET_LINE_STATUS)
    }

    /// The Line Status Register as a flag view.
    pub fn lsr(&mut self) -> (r: LsrFlags)
        ensures
            r@ == old(self).reg.lsr,
            *final(self) == *old(self),
    {
        let bits = self.reg.read(OFFSET_LINE_STATUS);
        LsrFlags::from_bits_truncate(bits)
    }

    /// Whether the line status reports data ready (bit 0).
    pub fn is_data_ready(&mut self) -> (r: bool)
        ensures
            r == (old(self).reg.lsr & 0x01 != 0),
            *final(self) == *old(self),
    {
        self.lsr().contains(LsrFlag::DataReady)
    }

    /// Whether the line status reports an overrun error (bit 1).
    pub fn is_overrun_error(&mut self) -> (r: bool)
        ensures
            r == (old(self).reg.lsr & 0x02 != 0),
            *final(self) == *old(self),
    {
        self.lsr().contains(LsrFlag::OverrunError)
    }

    /// Whether the line status reports a parity error (bit 2).
    pub fn is_parity_error(&mut self) -> (r: bool)
        ensures
            r == (old(self).reg.lsr & 0x04 != 0),
            *final(self) == *old(self),
    {
        self.lsr().contains(LsrFlag::ParityError)
    }

    /// Whether the line status reports a framing error (bit 3).
    pub fn is_framing_error(&mut self) -> (r: bool)
        ensures
            r == (old(self).reg.lsr & 0x08 != 0),
            *final(self) == *old(self),
    {
        self.lsr().contains(LsrFlag::FramingError)
    }

    /// Whether the line status reports a break interrupt (bit 4).
    pub fn is_break_interrupt(&mut self) -> (r: bool)
        ensures
            r == (old(self).reg.lsr & 0x10 != 0),
            *final(self) == *old(self),
    {
        self.lsr().contains(LsrFlag::BreakInterrupt)
    }

    /// Whether the transmitter holding register is empty (bit 5).
    pub fn is_transmitter_holding_register_empty(&mut self) -> (r: bool)
        ensures
            r == (old(self).reg.lsr & 0x20 != 0),
            *final(self) == *old(self),
    {
        self.lsr().contains(LsrFlag::TransmitterHoldingRegisterEmpty)
    }

    /// Whether the data holding registers are empty (bit 6).
    pub fn is_data_holding_registers_empty(&mut self) -> (r: bool)
        ensures
            r == (old(self).reg.lsr & 0x40 != 0),
            *final(self) == *old(self),
    {
        self.lsr().contains(LsrFlag::DataHoldingRegistersEmpty)
    }

    /// Whether the line status reports an error in the received FIFO
    /// (bit 7).
    pub fn is_received_fifo_error(&mut self) -> (r: bool)
        ensures
            r == (old(self).reg.lsr & 0x80 != 0),
            *final(self) == *old(self),
    {
        self.lsr().contains(LsrFlag::ReceivedFifoError)
    }

    /// Reads the Modem Status Register.
    pub fn read_msr(&mut self) -> (r: u8)
        ensures
            r == old(self).reg.msr,
            *final(self) == *old(self),
    {
        self.reg.read(OFFSET_MODEM_STATUS)
    }

    /// The Modem Status Register as a flag view.
    pub fn msr(&mut self) -> (r: MsrFlags)
        ensures
            r@ == old(self).reg.msr,
            *final(self) == *old(self),
    {
        let bits = self.reg.read(OFFSET_MODEM_STATUS);
        MsrFlags::from_bits_truncate(bits)
    }

    /// Whether the modem status reports carrier detect (bit 7).
    pub fn is_carrier_detect(&mut self) -> (r: bool)
        ensures
            r == (old(self).reg.msr & 0x80 != 0),
            *final(self) == *old(self),
    {
        self.msr().contains(MsrFlag::CarrierDetect)
    }

    /// Whether the modem status reports the ring indicator (bit 6).
    pub fn is_ring_indicator(&mut self) -> (r: bool)
        ensures
            r == (old(self).reg.msr & 0x40 != 0),
            *final(self) == *old(self),
    {
        self.msr().contains(MsrFlag::RingIndicator)
    }

    /// Whether the modem status reports data set ready (bit 5).
    pub fn is_data_set_ready(&mut self) -> (r: bool)
        ensures
            r == (old(self).reg.msr & 0x20 != 0),
            *final(self) == *old(self),
    {
        self.msr().contains(MsrFlag::DataSetReady)
    }

    /// Whether the modem status reports clear to send (bit 4).
    pub fn is_clear_to_send(&mut self) -> (r: bool)
        ensures
            r == (old(self).reg.msr & 0x10 != 0),
            *final(self) == *old(self),
    {
        self.msr().contains(MsrFlag::ClearToSend)
    }

    /// Whether the modem status reports a change of carrier detect
    /// (bit 3).
    pub fn is_delta_data_carrier_detect(&mut self) -> (r: bool)
        ensures
            r == (old(self).reg.msr & 0x08 != 0),
            *final(self) == *old(self),
    {
        self.msr().contains(MsrFlag::DeltaDataCarrierDetect)
    }

    /// Whether the modem status reports a trailing edge of the ring
    /// indicator (bit 2).
    pub fn is_trailing_edge_ring_indicator(&mut self) -> (r: bool)
        ensures
            r == (old(self).reg.msr & 0x04 != 0),
            *final(self) == *old(self),
    {
        self.msr().contains(MsrFlag::TrailingEdgeRingIndicator)
    }

    /// Whether the modem status reports a change of data set ready
    /// (bit 1).
    pub fn is_delta_data_set_ready(&mut self) -> (r: bool)
        ensures
            r == (old(self).reg.msr & 0x02 != 0),
            *final(self) == *old(self),
    {
        self.msr().contains(MsrFlag::DeltaDataSetReady)
    }

    /// Whether the modem status reports a change of clear to send
    /// (bit 0).
    pub fn is_delta_clear_to_send(&mut self) -> (r: bool)
        ensures
            r == (old(self).reg.msr & 0x01 != 0),
            *final(self) == *old(self),
    {
        self.msr().contains(MsrFlag::DeltaClearToSend)
    }

    /// Reads the Scratch Register.
    pub fn read_sr(&mut self) -> (r: u8)
        ensures
            r == old(self).reg.scratch,
            *final(self) == *old(self),
    {
        self.reg.read(OFFSET_SCRATCH)
    }

    /// Writes the Scratch Register.
    pub fn write_sr(&mut self, value: u8)
        ensures
            final(self).reg == (RegisterBlock { scratch: value, ..old(self).reg }),
    {
        self.reg.write(OFFSET_SCRATCH, value);
    }
}

/// Testing a defined flag bit on the truncated Interrupt Enable byte
/// agrees with testing it on the raw byte: truncation only drops the
/// two reserved bits.
proof fn lemma_ier_truncated_bit_tests(ier: u8)
    by (bit_vector)
    ensures
        ((ier & 0x3f) & 0x01 != 0) == (ier & 0x01 != 0),
        ((ier & 0x3f) & 0x02 != 0) == (ier & 0x02 != 0),
        ((ier & 0x3f) & 0x04 != 0) == (ier & 0x04 != 0),
        ((ier & 0x3f) & 0x08 != 0) == (ier & 0x08 != 0),
        ((ier & 0x3f) & 0x10 != 0) == (ier & 0x10 != 0),
        ((ier & 0x3f) & 0x20 != 0) == (ier & 0x20 != 0),
{
}

} // verus!
