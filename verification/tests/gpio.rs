use clocktree::gpio::{Conf, Gpio, GpioConfig, GpioError, Mode, Pin, Port, State};

#[test]
fn reserved_combination_refused() {
    let r = GpioConfig::new()
        .pin(Pin(3))
        .port(Port::B)
        .conf(Conf::AltFnOpenDrainOut)
        .mode(Mode::Input)
        .configure();
    assert!(matches!(r, Err(GpioError::ReservedConfig)));
}

#[test]
fn configure_hands_back_the_settings() {
    let g = GpioConfig::new()
        .pin(Pin(5))
        .port(Port::A)
        .conf(Conf::PushPullOut)
        .mode(Mode::Output2MHz)
        .configure()
        .expect("a push-pull output is a legal combination");
    assert_eq!(g.pin.number(), 5);
    assert_eq!(g.port, Port::A);
    assert_eq!(g.conf, Conf::PushPullOut);
    assert_eq!(g.mode, Mode::Output2MHz);
}

#[test]
fn control_word_low_register() {
    let cfg = GpioConfig::new().pin(Pin(5)).conf(Conf::PushPullOut).mode(Mode::Output2MHz);
    assert!(!cfg.uses_high_register());
    // Pin 5 occupies bits 20..24 of the low control register: mode 0b10 in
    // the low half of the slot, configuration 0b00 in the high half.
    assert_eq!(cfg.control_value(), 0b10 << 20);
}

#[test]
fn control_word_high_register() {
    let cfg = GpioConfig::new().pin(Pin(9)).conf(Conf::FloatingIn).mode(Mode::Input);
    assert!(cfg.uses_high_register());
    // Pin 9 occupies bits 4..8 of the high control register.
    assert_eq!(cfg.control_value(), 0b01 << 6);
}

#[test]
fn set_and_reset_words() {
    let out = Gpio { conf: Conf::PushPullOut, mode: Mode::Output2MHz, pin: Pin(5), port: Port::A };
    assert_eq!(out.set(State::High).unwrap(), 1 << 5);
    assert_eq!(out.set(State::Low).unwrap(), 1 << 21);
}

#[test]
fn writing_an_input_pin_is_refused() {
    let inp = Gpio { conf: Conf::FloatingIn, mode: Mode::Input, pin: Pin(5), port: Port::A };
    assert!(matches!(inp.set(State::High), Err(GpioError::WriteOnInput)));
}

#[test]
fn level_read_back_uses_the_right_register() {
    let inp = Gpio { conf: Conf::FloatingIn, mode: Mode::Input, pin: Pin(2), port: Port::C };
    assert_eq!(inp.get(0b0100, 0), State::High);
    assert_eq!(inp.get(0, 0b0100), State::Low);
    let out = Gpio { conf: Conf::PushPullOut, mode: Mode::Output50MHz, pin: Pin(2), port: Port::C };
    assert_eq!(out.get(0, 0b0100), State::High);
    assert_eq!(out.get(0b0100, 0), State::Low);
}

#[test]
fn pin_code_is_one_hot() {
    assert_eq!(Pin(0).code(), 1);
    assert_eq!(Pin(3).code(), 8);
    assert_eq!(Pin(15).code(), 0x8000);
    assert_eq!(Pin(7).number(), 7);
}

#[test]
fn conf_and_mode_field_values() {
    assert_eq!(Conf::AnalogIn.val(), 0b00);
    assert_eq!(Conf::FloatingIn.val(), 0b01);
    assert_eq!(Conf::PullUpDownIn.val(), 0b10);
    assert_eq!(Conf::PushPullOut.val(), 0b00);
    assert_eq!(Conf::OpenDrainOut.val(), 0b01);
    assert_eq!(Conf::AltFnPushPullOut.val(), 0b10);
    assert_eq!(Conf::AltFnOpenDrainOut.val(), 0b11);
    assert_eq!(Mode::Input.val(), 0b00);
    assert_eq!(Mode::Output10MHz.val(), 0b01);
    assert_eq!(Mode::Output2MHz.val(), 0b10);
    assert_eq!(Mode::Output50MHz.val(), 0b11);
}

#[test]
fn interrupt_disable_is_a_no_op() {
    let g = Gpio { conf: Conf::FloatingIn, mode: Mode::Input, pin: Pin(0), port: Port::A };
    assert!(g.disable_interrupt().is_ok());
}
