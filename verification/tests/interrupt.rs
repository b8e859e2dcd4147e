use uart8250::interrupt::{
    fifo_64_byte_of, fifo_info_of, interrupt_pending_of, interrupt_type_of, ChipFifoInfo,
    InterruptType,
};

#[test]
fn interrupt_type_exhaustive_over_low_nibble() {
    // Every one of the 16 patterns of bits 3..0 maps to exactly one
    // outcome, the odd ones to "nothing pending".
    let expected: [Option<InterruptType>; 16] = [
        Some(InterruptType::ModemStatus),
        None,
        Some(InterruptType::TransmitterHoldingRegisterEmpty),
        None,
        Some(InterruptType::ReceivedDataAvailable),
        None,
        Some(InterruptType::ReceiverLineStatus),
        None,
        Some(InterruptType::Reserved),
        None,
        Some(InterruptType::Reserved),
        None,
        Some(InterruptType::Timeout),
        None,
        Some(InterruptType::Reserved),
        None,
    ];
    for nibble in 0u8..16 {
        assert_eq!(interrupt_type_of(nibble), expected[nibble as usize]);
        // The high nibble does not matter.
        assert_eq!(interrupt_type_of(nibble | 0xf0), expected[nibble as usize]);
    }
}

#[test]
fn fifo_info_four_patterns() {
    assert_eq!(fifo_info_of(0b0000_0000), ChipFifoInfo::NoFifo);
    assert_eq!(fifo_info_of(0b0100_0000), ChipFifoInfo::Reserved);
    assert_eq!(fifo_info_of(0b1000_0000), ChipFifoInfo::EnabledNoFunction);
    assert_eq!(fifo_info_of(0b1100_0000), ChipFifoInfo::Enabled);
    // The low bits do not matter.
    assert_eq!(fifo_info_of(0b1100_0001), ChipFifoInfo::Enabled);
    assert_eq!(fifo_info_of(0b0011_1111), ChipFifoInfo::NoFifo);
}

#[test]
fn fifo_64_byte_flag() {
    assert!(fifo_64_byte_of(0b0010_0000));
    assert!(!fifo_64_byte_of(0b1101_1111));
}

#[test]
fn pending_flag_is_inverted() {
    // Bit 0 clear means an interrupt is pending.
    assert!(interrupt_pending_of(0b0000_0000));
    assert!(!interrupt_pending_of(0b0000_0001));
}
