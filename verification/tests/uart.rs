use uart8250::interrupt::{ChipFifoInfo, InterruptType};
use uart8250::line_control::Parity;
use uart8250::registers::RegisterBlock;
use uart8250::uart::MmioUart8250;
use uart8250::InvalidFieldValue;

fn uart_over(reg: RegisterBlock) -> MmioUart8250 {
    MmioUart8250::new(reg)
}

#[test]
fn divisor_example_115200() {
    // clock 1,843,200 at baud 115,200 gives divisor 1.
    let mut uart = uart_over(RegisterBlock::new());
    uart.set_divisor(1_843_200, 115_200);
    assert_eq!(uart.reg.dll, 0x01);
    assert_eq!(uart.reg.dlh, 0x00);
    assert!(!uart.is_divisor_latch_accessible());
}

#[test]
fn divisor_example_50_baud() {
    // clock 1,843,200 at baud 50 gives divisor 2304 = 0x0900.
    let mut uart = uart_over(RegisterBlock::new());
    uart.set_divisor(1_843_200, 50);
    assert_eq!(uart.reg.dll, 0x00);
    assert_eq!(uart.reg.dlh, 0x09);
}

#[test]
fn divisor_window_leaves_dlab_clear() {
    let mut block = RegisterBlock::new();
    block.lcr = 0x03;
    let mut uart = uart_over(block);
    assert!(!uart.is_divisor_latch_accessible());
    uart.set_divisor(1_843_200, 38_400);
    assert!(!uart.is_divisor_latch_accessible());
    // The rest of the Line Control byte is untouched.
    assert_eq!(uart.reg.lcr, 0x03);
    assert_eq!(uart.reg.dll, 0x03);
    assert_eq!(uart.reg.dlh, 0x00);
}

#[test]
fn init_programs_the_documented_sequence() {
    let mut block = RegisterBlock::new();
    block.ier = 0x10;
    let mut uart = uart_over(block);
    uart.init(1_843_200, 115_200);
    assert_eq!(uart.reg.dll, 0x01);
    assert_eq!(uart.reg.dlh, 0x00);
    // 8 data bits, no parity, one stop bit, DLAB clear.
    assert_eq!(uart.reg.lcr, 0x03);
    assert_eq!(uart.get_word_length(), 8);
    assert_eq!(uart.get_parity(), Some(Parity::No));
    assert_eq!(uart.get_stop_bit(), 1);
    // FIFOs on, modem control lines off.
    assert_eq!(uart.reg.fcr, 0x01);
    assert_eq!(uart.reg.mcr, 0x00);
    // The received-data-available interrupt is enabled on top of
    // what was enabled before.
    assert_eq!(uart.reg.ier, 0x11);
    assert!(uart.is_received_data_available_interrupt_enabled());
}

#[test]
fn read_byte_when_not_ready_touches_no_data() {
    let mut block = RegisterBlock::new();
    block.rbr = 0x55;
    block.lsr = 0x00;
    let mut uart = uart_over(block);
    assert_eq!(uart.read_byte(), None);
    // The receive buffer was never read.
    assert_eq!(uart.reg.rbr_reads, 0);
}

#[test]
fn read_byte_when_ready_consumes_one_datum() {
    let mut block = RegisterBlock::new();
    block.rbr = 0x55;
    block.lsr = 0x01;
    let mut uart = uart_over(block);
    assert_eq!(uart.read_byte(), Some(0x55));
    assert_eq!(uart.reg.rbr_reads, 1);
    assert_eq!(uart.read_byte(), Some(0x55));
    assert_eq!(uart.reg.rbr_reads, 2);
}

#[test]
fn write_byte_hits_transmit_holding() {
    let mut uart = uart_over(RegisterBlock::new());
    uart.write_byte(0xa5);
    assert_eq!(uart.reg.thr, 0xa5);
    assert_eq!(uart.reg.rbr, 0x00);
}

#[test]
fn dlab_gates_offset_zero_and_one() {
    let mut uart = uart_over(RegisterBlock::new());
    uart.write_thr(0x11);
    assert_eq!(uart.reg.thr, 0x11);
    assert_eq!(uart.reg.dll, 0x00);
    uart.enable_divisor_latch_accessible();
    uart.write_dll(0x22);
    uart.write_dlh(0x33);
    assert_eq!(uart.reg.dll, 0x22);
    assert_eq!(uart.reg.dlh, 0x33);
    assert_eq!(uart.reg.thr, 0x11);
    assert_eq!(uart.reg.ier, 0x00);
    assert_eq!(uart.read_dll(), 0x22);
    assert_eq!(uart.read_dlh(), 0x33);
    // Reading the divisor latch consumes no data.
    assert_eq!(uart.reg.rbr_reads, 0);
    uart.disable_divisor_latch_accessible();
    uart.write_ier(0x0f);
    assert_eq!(uart.reg.ier, 0x0f);
    assert_eq!(uart.reg.dlh, 0x33);
}

#[test]
fn toggle_ier_flag_twice_restores_byte() {
    let mut block = RegisterBlock::new();
    block.ier = 0b0001_0101;
    let mut uart = uart_over(block);
    uart.toggle_sleep_mode();
    assert_eq!(uart.reg.ier, 0b0000_0101);
    uart.toggle_sleep_mode();
    assert_eq!(uart.reg.ier, 0b0001_0101);
    // A byte carrying a reserved bit is not restored: the
    // write-back truncates bits 7 and 6.
    uart.reg.ier = 0b1001_0101;
    uart.toggle_sleep_mode();
    uart.toggle_sleep_mode();
    assert_eq!(uart.reg.ier, 0b0001_0101);
}

#[test]
fn ier_enable_disable_and_getters() {
    let mut uart = uart_over(RegisterBlock::new());
    uart.enable_received_data_available_interrupt();
    assert_eq!(uart.reg.ier, 0x01);
    uart.enable_transmitter_holding_register_empty_interrupt();
    assert_eq!(uart.reg.ier, 0x03);
    uart.enable_receiver_line_status_interrupt();
    uart.enable_modem_status_interrupt();
    uart.enable_sleep_mode();
    uart.enable_low_power_mode();
    assert_eq!(uart.reg.ier, 0x3f);
    assert!(uart.is_received_data_available_interrupt_enabled());
    assert!(uart.is_transmitter_holding_register_empty_interrupt_enabled());
    assert!(uart.is_receiver_line_status_interrupt_enabled());
    assert!(uart.is_modem_status_interrupt_enabled());
    assert!(uart.is_sleep_mode_enabled());
    assert!(uart.is_low_power_mode_enabled());
    uart.disable_sleep_mode();
    assert!(!uart.is_sleep_mode_enabled());
    assert_eq!(uart.reg.ier, 0x2f);
    uart.disable_low_power_mode();
    uart.disable_modem_status_interrupt();
    uart.disable_receiver_line_status_interrupt();
    uart.disable_transmitter_holding_register_empty_interrupt();
    uart.disable_received_data_available_interrupt();
    assert_eq!(uart.reg.ier, 0x00);
}

#[test]
fn ier_flag_view_round_trip() {
    let mut block = RegisterBlock::new();
    block.ier = 0xff;
    let mut uart = uart_over(block);
    let flags = uart.ier();
    assert_eq!(flags.bits(), 0x3f);
    uart.set_ier(flags);
    assert_eq!(uart.reg.ier, 0x3f);
    assert_eq!(uart.read_ier(), 0x3f);
}

#[test]
fn line_control_codec_through_the_facade() {
    let mut uart = uart_over(RegisterBlock::new());
    assert_eq!(uart.set_word_length(8), Ok(()));
    uart.set_parity(Parity::No);
    assert_eq!(uart.set_stop_bit(1), Ok(()));
    assert_eq!(uart.reg.lcr, 0b0000_0011);
    assert_eq!(uart.read_lcr(), 0x03);

    assert_eq!(uart.set_stop_bit(2), Ok(()));
    assert_eq!(uart.get_stop_bit(), 2);
    uart.set_parity(Parity::Even);
    assert_eq!(uart.get_parity(), Some(Parity::Even));
    assert_eq!(uart.set_word_length(5), Ok(()));
    assert_eq!(uart.get_word_length(), 5);
    // Changing one field left the others alone.
    assert_eq!(uart.get_stop_bit(), 2);
    assert_eq!(uart.get_parity(), Some(Parity::Even));
}

#[test]
fn illegal_field_values_are_rejected_unchanged() {
    let mut block = RegisterBlock::new();
    block.lcr = 0x6b;
    let mut uart = uart_over(block);
    assert_eq!(uart.set_stop_bit(0), Err(InvalidFieldValue));
    assert_eq!(uart.set_stop_bit(3), Err(InvalidFieldValue));
    assert_eq!(uart.set_word_length(4), Err(InvalidFieldValue));
    assert_eq!(uart.set_word_length(9), Err(InvalidFieldValue));
    assert_eq!(uart.reg.lcr, 0x6b);
}

#[test]
fn reserved_parity_pattern_reads_as_unrecognized() {
    let mut block = RegisterBlock::new();
    block.lcr = 0x10;
    let mut uart = uart_over(block);
    assert_eq!(uart.get_parity(), None);
}

#[test]
fn interrupt_identification_through_the_facade() {
    let mut block = RegisterBlock::new();
    block.iir = 0b1100_1100;
    let mut uart = uart_over(block);
    assert_eq!(uart.read_iir(), 0xcc);
    assert_eq!(uart.read_fifo_status(), ChipFifoInfo::Enabled);
    assert_eq!(uart.read_interrupt_type(), Some(InterruptType::Timeout));
    assert!(uart.is_interrupt_pending());
    assert!(!uart.is_64byte_fifo_enabled());

    uart.reg.iir = 0b0010_0001;
    assert_eq!(uart.read_fifo_status(), ChipFifoInfo::NoFifo);
    assert_eq!(uart.read_interrupt_type(), None);
    assert!(!uart.is_interrupt_pending());
    assert!(uart.is_64byte_fifo_enabled());
}

#[test]
fn fifo_control_write_is_separate_from_identification_read() {
    let mut block = RegisterBlock::new();
    block.iir = 0x42;
    let mut uart = uart_over(block);
    uart.write_fcr(0x07);
    assert_eq!(uart.reg.fcr, 0x07);
    // The read meaning of the offset is untouched.
    assert_eq!(uart.read_iir(), 0x42);
}

#[test]
fn modem_control_round_trip() {
    let mut uart = uart_over(RegisterBlock::new());
    uart.write_mcr(0x0b);
    assert_eq!(uart.read_mcr(), 0x0b);
    assert_eq!(uart.reg.mcr, 0x0b);
}

#[test]
fn line_status_getters() {
    let mut block = RegisterBlock::new();
    block.lsr = 0b1010_0101;
    let mut uart = uart_over(block);
    assert_eq!(uart.read_lsr(), 0xa5);
    assert_eq!(uart.lsr().bits(), 0xa5);
    assert!(uart.is_data_ready());
    assert!(!uart.is_overrun_error());
    assert!(uart.is_parity_error());
    assert!(!uart.is_framing_error());
    assert!(!uart.is_break_interrupt());
    assert!(uart.is_transmitter_holding_register_empty());
    assert!(!uart.is_data_holding_registers_empty());
    assert!(uart.is_received_fifo_error());
}

#[test]
fn modem_status_getters() {
    let mut block = RegisterBlock::new();
    block.msr = 0b0101_1010;
    let mut uart = uart_over(block);
    assert_eq!(uart.read_msr(), 0x5a);
    assert_eq!(uart.msr().bits(), 0x5a);
    assert!(!uart.is_carrier_detect());
    assert!(uart.is_ring_indicator());
    assert!(!uart.is_data_set_ready());
    assert!(uart.is_clear_to_send());
    assert!(uart.is_delta_data_carrier_detect());
    assert!(!uart.is_trailing_edge_ring_indicator());
    assert!(uart.is_delta_data_set_ready());
    assert!(!uart.is_delta_clear_to_send());
}

#[test]
fn scratch_register_round_trip() {
    let mut uart = uart_over(RegisterBlock::new());
    uart.write_sr(0x5a);
    assert_eq!(uart.read_sr(), 0x5a);
    assert_eq!(uart.reg.scratch, 0x5a);
}

#[test]
fn rebinding_swaps_the_whole_block() {
    let mut uart = uart_over(RegisterBlock::new());
    uart.write_sr(0x01);
    let mut other = RegisterBlock::new();
    other.scratch = 0x99;
    uart.set_register_block(other);
    assert_eq!(uart.read_sr(), 0x99);
}
