use uart8250::flags::{IerFlag, IerFlags, LsrFlag, LsrFlags, MsrFlag, MsrFlags};

#[test]
fn ier_truncates_reserved_bits() {
    assert_eq!(IerFlags::from_bits_truncate(0xff).bits(), 0x3f);
    assert_eq!(IerFlags::from_bits_truncate(0x80).bits(), 0x00);
    assert_eq!(IerFlags::from_bits_truncate(0x21).bits(), 0x21);
    assert_eq!(IerFlags::empty().bits(), 0x00);
}

#[test]
fn ier_contains_and_masks() {
    let flags = IerFlags::from_bits_truncate(0b0010_0101);
    assert!(flags.contains(IerFlag::ReceivedDataAvailable));
    assert!(!flags.contains(IerFlag::TransmitterHoldingRegisterEmpty));
    assert!(flags.contains(IerFlag::ReceiverLineStatus));
    assert!(!flags.contains(IerFlag::ModemStatus));
    assert!(!flags.contains(IerFlag::SleepMode));
    assert!(flags.contains(IerFlag::LowPowerMode));
    assert_eq!(IerFlag::ReceivedDataAvailable.mask(), 0x01);
    assert_eq!(IerFlag::TransmitterHoldingRegisterEmpty.mask(), 0x02);
    assert_eq!(IerFlag::ReceiverLineStatus.mask(), 0x04);
    assert_eq!(IerFlag::ModemStatus.mask(), 0x08);
    assert_eq!(IerFlag::SleepMode.mask(), 0x10);
    assert_eq!(IerFlag::LowPowerMode.mask(), 0x20);
}

#[test]
fn ier_set_operations() {
    let flags = IerFlags::empty().with(IerFlag::SleepMode).with(IerFlag::ModemStatus);
    assert_eq!(flags.bits(), 0x18);
    assert_eq!(flags.without(IerFlag::SleepMode).bits(), 0x08);
    assert_eq!(flags.toggled(IerFlag::SleepMode).bits(), 0x08);
    assert_eq!(flags.toggled(IerFlag::ReceivedDataAvailable).bits(), 0x19);

    let other = IerFlags::from_bits_truncate(0x09);
    assert_eq!(flags.union(other).bits(), 0x19);
    assert_eq!(flags.difference(other).bits(), 0x10);
    assert_eq!(flags.symmetric_difference(other).bits(), 0x11);
}

#[test]
fn ier_toggle_twice_restores() {
    let flags = IerFlags::from_bits_truncate(0b0001_0101);
    for flag in [
        IerFlag::ReceivedDataAvailable,
        IerFlag::TransmitterHoldingRegisterEmpty,
        IerFlag::ReceiverLineStatus,
        IerFlag::ModemStatus,
        IerFlag::SleepMode,
        IerFlag::LowPowerMode,
    ] {
        assert_eq!(flags.toggled(flag).toggled(flag), flags);
    }
}

#[test]
fn lsr_view_keeps_all_bits() {
    let flags = LsrFlags::from_bits_truncate(0b1010_0101);
    assert_eq!(flags.bits(), 0b1010_0101);
    assert!(flags.contains(LsrFlag::DataReady));
    assert!(!flags.contains(LsrFlag::OverrunError));
    assert!(flags.contains(LsrFlag::ParityError));
    assert!(!flags.contains(LsrFlag::FramingError));
    assert!(!flags.contains(LsrFlag::BreakInterrupt));
    assert!(flags.contains(LsrFlag::TransmitterHoldingRegisterEmpty));
    assert!(!flags.contains(LsrFlag::DataHoldingRegistersEmpty));
    assert!(flags.contains(LsrFlag::ReceivedFifoError));
}

#[test]
fn msr_view_keeps_all_bits() {
    let flags = MsrFlags::from_bits_truncate(0b0101_1010);
    assert_eq!(flags.bits(), 0b0101_1010);
    assert!(!flags.contains(MsrFlag::DeltaClearToSend));
    assert!(flags.contains(MsrFlag::DeltaDataSetReady));
    assert!(!flags.contains(MsrFlag::TrailingEdgeRingIndicator));
    assert!(flags.contains(MsrFlag::DeltaDataCarrierDetect));
    assert!(flags.contains(MsrFlag::ClearToSend));
    assert!(!flags.contains(MsrFlag::DataSetReady));
    assert!(flags.contains(MsrFlag::RingIndicator));
    assert!(!flags.contains(MsrFlag::CarrierDetect));
}
