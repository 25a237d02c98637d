//! General-purpose I/O pin configuration.
//!
//! The library computes and validates everything about a pin — the reserved
//! combination check, the control-register word, the set/reset word and the
//! level read-back — as plain values; committing those words to the
//! memory-mapped port registers, and sampling them, is the caller's side of
//! the boundary.

use vstd::prelude::*;

verus! {

/// What can go wrong when configuring or driving a pin.
#[derive(Clone, Copy, PartialEq, Eq, Structural, Debug)]
pub enum GpioError {
    /// The requested configuration/mode pair is reserved by the hardware.
    ReservedConfig,
    /// A level was written to a pin configured as an input.
    WriteOnInput,
}

/// The pin's electrical configuration.
#[derive(Clone, Copy, PartialEq, Eq, Structural, Debug)]
pub enum Conf {
    AnalogIn,
    FloatingIn,
    PullUpDownIn,
    PushPullOut,
    OpenDrainOut,
    AltFnPushPullOut,
    AltFnOpenDrainOut,
}

/// The two-bit configuration field value of a setting.
pub open spec fn conf_value(c: Conf) -> u32 {
    match c {
        Conf::AnalogIn => 0b00,
        Conf::FloatingIn => 0b01,
        Conf::PullUpDownIn => 0b10,
        Conf::PushPullOut => 0b00,
        Conf::OpenDrainOut => 0b01,
        Conf::AltFnPushPullOut => 0b10,
        Conf::AltFnOpenDrainOut => 0b11,
    }
}

impl Conf {
    /// The value written into the pin's two-bit configuration field.
    pub fn val(&self) -> (r: u32)
        ensures
            r == conf_value(*self),
            r < 4,
    {
        match *self {
            Conf::AnalogIn => 0b00,
            Conf::FloatingIn => 0b01,
            Conf::PullUpDownIn => 0b10,
            Conf::PushPullOut => 0b00,
            Conf::OpenDrainOut => 0b01,
            Conf::AltFnPushPullOut => 0b10,
            Conf::AltFnOpenDrainOut => 0b11,
        }
    }
}

/// The pin's direction and, for outputs, its slew rating.
#[derive(Clone, Copy, PartialEq, Eq, Structural, Debug)]
pub enum Mode {
    Input,
    Output10MHz,
    Output2MHz,
    Output50MHz,
}

/// The two-bit mode field value of a setting.
pub open spec fn mode_value(m: Mode) -> u32 {
    match m {
        Mode::Input => 0b00,
        Mode::Output10MHz => 0b01,
        Mode::Output2MHz => 0b10,
        Mode::Output50MHz => 0b11,
    }
}

impl Mode {
    /// The value written into the pin's two-bit mode field.
    pub fn val(&self) -> (r: u32)
        ensures
            r == mode_value(*self),
            r < 4,
    {
        match *self {
            Mode::Input => 0b00,
            Mode::Output10MHz => 0b01,
            Mode::Output2MHz => 0b10,
            Mode::Output50MHz => 0b11,
        }
    }
}

/// Which port the pin belongs to.
#[derive(Clone, Copy, PartialEq, Eq, Structural, Debug)]
pub enum Port {
    A,
    B,
    C,
}

/// A pin index within its port.  The hardware has sixteen pins per port.
#[derive(Clone, Copy, PartialEq, Eq, Structural, Debug)]
pub struct Pin(pub u32);

impl Pin {
    /// The pin's index.
    pub fn number(&self) -> (r: u32)
        ensures
            r == self.0,
    {
        self.0
    }

    /// The pin's one-hot mask within its port's sixteen-bit data registers.
    pub fn code(&self) -> (r: u16)
        requires
            self.0 < 16,
        ensures
            r == 1u16 << self.0,
    {
        1u16 << self.0
    }
}

/// The desired configuration of one pin, built with the chained setters.
#[derive(Clone, Copy, PartialEq, Eq, Structural, Debug)]
pub struct GpioConfig {
    pub conf: Conf,
    pub mode: Mode,
    pub pin: Pin,
    pub port: Port,
}

/// The requested pair of configuration and mode is a combination the
/// hardware reserves: an alternate-function open-drain output cannot be an
/// input.
pub open spec fn reserved_config(c: Conf, m: Mode) -> bool {
    c is AltFnOpenDrainOut && m is Input
}

/// How far the pin's four-bit slot is shifted within the control register
/// that covers it (the low register covers pins 0 to 7, the high register
/// the rest).
pub open spec fn control_shift(pin: u32) -> u32
    recommends
        pin < 16,
{
    if pin > 7 {
        ((pin - 8) * 4) as u32
    } else {
        (pin * 4) as u32
    }
}

impl GpioConfig {
    /// The safe baseline: pin 0 of port A as an analog input.
    pub fn new() -> (r: GpioConfig)
        ensures
            r == (GpioConfig { conf: Conf::AnalogIn, mode: Mode::Input, pin: Pin(0), port: Port::A }),
    {
        GpioConfig { conf: Conf::AnalogIn, mode: Mode::Input, pin: Pin(0), port: Port::A }
    }

    /// Select the pin.
    pub fn pin(self, pin: Pin) -> (r: GpioConfig)
        ensures
            r == (GpioConfig { pin, ..self }),
    {
        GpioConfig { pin, ..self }
    }

    /// Select the port.
    pub fn port(self, port: Port) -> (r: GpioConfig)
        ensures
            r == (GpioConfig { port, ..self }),
    {
        GpioConfig { port, ..self }
    }

    /// Select the electrical configuration.
    pub fn conf(self, conf: Conf) -> (r: GpioConfig)
        ensures
            r == (GpioConfig { conf, ..self }),
    {
        GpioConfig { conf, ..self }
    }

    /// Select the direction and slew mode.
    pub fn mode(self, mode: Mode) -> (r: GpioConfig)
        ensures
            r == (GpioConfig { mode, ..self }),
    {
        GpioConfig { mode, ..self }
    }

    /// Whether this pin's four-bit slot lies in the high control register
    /// (pins 8 to 15) rather than the low one.
    pub fn uses_high_register(&self) -> (b: bool)
        ensures
            b == (self.pin.0 > 7),
    {
        self.pin.0 > 7
    }

    /// The value to merge into the pin's control register: the mode field in
    /// the low two bits of the pin's slot and the configuration field in the
    /// high two.
    pub fn control_value(&self) -> (v: u32)
        requires
            self.pin.0 < 16,
        ensures
            v == (mode_value(self.mode) << control_shift(self.pin.0)) | (conf_value(self.conf) << (
            control_shift(self.pin.0) + 2)),
    {
        let shift: u32 = if self.pin.0 > 7 {
            (self.pin.0 - 8) * 4
        } else {
            self.pin.0 * 4
        };
        (self.mode.val() << shift) | (self.conf.val() << (shift + 2))
    }

    /// Validate the requested pin configuration and hand back the driving
    /// handle.  The reserved combination is refused before anything else;
    /// the caller commits `control_value` to the port's control register for
    /// an accepted configuration.
    pub fn configure(&self) -> (r: Result<Gpio, GpioError>)
        ensures
            r is Err <==> reserved_config(self.conf, self.mode),
            r is Err ==> r matches Err(GpioError::ReservedConfig),
            r matches Ok(g) ==> g == (Gpio {
                conf: self.conf,
                mode: self.mode,
                pin: self.pin,
                port: self.port,
            }),
    {
        if self.conf == Conf::AltFnOpenDrainOut && self.mode == Mode::Input {
            return Err(GpioError::ReservedConfig);
        }
        Ok(Gpio { conf: self.conf, mode: self.mode, pin: self.pin, port: self.port })
    }
}

/// A configured pin.
#[derive(Clone, Copy, PartialEq, Eq, Structural, Debug)]
pub struct Gpio {
    pub conf: Conf,
    pub mode: Mode,
    pub pin: Pin,
    pub port: Port,
}

/// A pin level.
#[derive(Clone, Copy, PartialEq, Eq, Structural, Debug)]
pub enum State {
    High,
    Low,
}

impl Gpio {
    /// The word to write to the port's set/reset register for the requested
    /// level: the pin's bit in the low half sets it, in the high half
    /// clears it.  Driving a pin configured as an input is refused.
    pub fn set(&self, ns: State) -> (r: Result<u32, GpioError>)
        requires
            self.pin.0 < 16,
        ensures
            r is Err <==> self.mode is Input,
            r is Err ==> r matches Err(GpioError::WriteOnInput),
            !(self.mode is Input) && ns is High ==> (r matches Ok(w) && w == 1u32 << self.pin.0),
            !(self.mode is Input) && ns is Low ==> (r matches Ok(w) && w == 1u32 << (self.pin.0
                + 16)),
    {
        if self.mode == Mode::Input {
            return Err(GpioError::WriteOnInput);
        }
        let wr: u32 = match ns {
            State::High => 1u32 << self.pin.0,
            State::Low => 1u32 << (self.pin.0 + 16),
        };
        Ok(wr)
    }

    /// The pin's level, read from the sampled contents of its port's data
    /// registers: the input register for a pin configured as an input, the
    /// output register otherwise.
    pub fn get(&self, input_bits: u32, output_bits: u32) -> (s: State)
        requires
            self.pin.0 < 16,
        ensures
            s is High <==> (if self.mode is Input {
                input_bits
            } else {
                output_bits
            }) & (1u32 << self.pin.0) != 0,
    {
        let sampled: u32 = if self.mode == Mode::Input {
            input_bits
        } else {
            output_bits
        };
        if sampled & (1u32 << self.pin.0) != 0 {
            State::High
        } else {
            State::Low
        }
    }

    /// Interrupts on this pin are not supported; disabling them always
    /// succeeds.
    pub fn disable_interrupt(&self) -> (r: Result<(), GpioError>)
        ensures
            r is Ok,
    {
        Ok(())
    }
}

} // verus!
