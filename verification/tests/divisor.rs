use uart8250::divisor::{divisor_high, divisor_low};
use uart8250::divisor_for;

#[test]
fn divisor_table_for_common_baud_rates() {
    // The classic 1.8432 MHz reference clock.
    let clock = 1_843_200;
    let table = [
        (50, 2304),
        (110, 1047),
        (300, 384),
        (1200, 96),
        (9600, 12),
        (38400, 3),
        (57600, 2),
        (115200, 1),
    ];
    for (baud_rate, divisor) in table {
        assert_eq!(divisor_for(clock, baud_rate), divisor);
    }
}

#[test]
fn division_truncates() {
    assert_eq!(divisor_for(1_843_200, 110), 1047);
    // A baud rate above a sixteenth of the clock truncates to the
    // hardware-invalid divisor zero; the caller must reject it.
    assert_eq!(divisor_for(100, 115200), 0);
}

#[test]
fn byte_split_matches_bit_view() {
    assert_eq!(divisor_low(0x0917), 0x17);
    assert_eq!(divisor_high(0x0917), 0x09);
    assert_eq!(divisor_low(0x0001), 0x01);
    assert_eq!(divisor_high(0x0001), 0x00);
    for d in [0usize, 1, 255, 256, 0x1234, 0xffff, 0x1_2345] {
        assert_eq!(divisor_low(d), (d & 0xff) as u8);
        assert_eq!(divisor_high(d), ((d >> 8) & 0xff) as u8);
    }
}
