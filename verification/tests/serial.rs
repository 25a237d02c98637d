use clocktree::serial::{BaudRate, DataLength, SerialConfig, StopBits};

#[test]
fn baud_divisor_is_exact() {
    // 36 MHz peripheral clock at 115200 baud: 36_000_000 / (16 * 115200)
    // truncates to 19.
    assert_eq!(SerialConfig::br_conv(36_000_000, 115200), 19);
    // 8 MHz at the default rate: 8_000_000 / (16 * 9600) truncates to 52.
    assert_eq!(SerialConfig::br_conv(8_000_000, 9600), 52);
    assert_eq!(SerialConfig::br_conv(24_000_000, 9600), 156);
}

#[test]
fn baud_register_word_is_masked_and_shifted() {
    let cfg = SerialConfig::new().baud_rate(BaudRate::Br115200);
    assert_eq!(cfg.brr_value(36_000_000), 19 << 4);
    // An unset rate falls back to 9600 baud.
    assert_eq!(SerialConfig::new().brr_value(8_000_000), 52 << 4);
}

#[test]
fn frame_settings_fall_back_to_defaults() {
    let cfg = SerialConfig::new();
    assert!(!cfg.data_length_bit());
    assert_eq!(cfg.stop_bits_code(), 0b00);
}

#[test]
fn frame_settings_follow_the_choices() {
    let cfg = SerialConfig::new().data_length(DataLength::DataLen9Bits).stop_bits(StopBits::Stop2);
    assert!(cfg.data_length_bit());
    assert_eq!(cfg.stop_bits_code(), 0b10);
    assert_eq!(SerialConfig::new().stop_bits(StopBits::Stop05).stop_bits_code(), 0b01);
    assert_eq!(SerialConfig::new().stop_bits(StopBits::Stop15).stop_bits_code(), 0b11);
    assert_eq!(SerialConfig::new().stop_bits(StopBits::Stop1).stop_bits_code(), 0b00);
}

#[test]
fn baud_rates_carry_their_numeric_values() {
    assert_eq!(BaudRate::Br9600.as_val(), 9600);
    assert_eq!(BaudRate::Br14400.as_val(), 14400);
    assert_eq!(BaudRate::Br19200.as_val(), 19200);
    assert_eq!(BaudRate::Br28800.as_val(), 28800);
    assert_eq!(BaudRate::Br38400.as_val(), 38400);
    assert_eq!(BaudRate::Br56000.as_val(), 56000);
    assert_eq!(BaudRate::Br57600.as_val(), 57600);
    assert_eq!(BaudRate::Br115200.as_val(), 115200);
}

#[test]
fn builder_keeps_choices() {
    let cfg = SerialConfig::new()
        .baud_rate(BaudRate::Br115200)
        .stop_bits(StopBits::Stop1)
        .data_length(DataLength::DataLen8bits);
    assert!(matches!(cfg.baud_rate, Some(BaudRate::Br115200)));
    assert!(matches!(cfg.stop_bits, Some(StopBits::Stop1)));
    assert!(matches!(cfg.data_length, Some(DataLength::DataLen8bits)));
}
