//! Serial transmitter configuration.
//!
//! The driver consumes one artifact of the clock core — the effective
//! peripheral-bus-1 frequency, as reported by the frequency oracle — to size
//! its baud-rate divisor.  The library computes the register field values
//! (baud-rate register word, data-length bit, stop-bits code); writing them
//! into the transmitter's registers is the caller's side of the boundary.

use vstd::prelude::*;

verus! {

/// A configured serial transmitter handle.
#[derive(Clone, Copy, PartialEq, Eq, Structural, Debug)]
pub struct Serial;

/// The supported line rates, in bits per second.
#[derive(Clone, Copy, PartialEq, Eq, Structural, Debug)]
pub enum BaudRate {
    Br9600,
    Br14400,
    Br19200,
    Br28800,
    Br38400,
    Br56000,
    Br57600,
    Br115200,
}

/// The numeric line rate of a setting.
pub open spec fn baud_value(b: BaudRate) -> int {
    match b {
        BaudRate::Br9600 => 9600,
        BaudRate::Br14400 => 14400,
        BaudRate::Br19200 => 19200,
        BaudRate::Br28800 => 28800,
        BaudRate::Br38400 => 38400,
        BaudRate::Br56000 => 56000,
        BaudRate::Br57600 => 57600,
        BaudRate::Br115200 => 115200,
    }
}

impl BaudRate {
    /// The line rate in bits per second.
    pub fn as_val(&self) -> (r: u32)
        ensures
            r == baud_value(*self),
            9600 <= r <= 115200,
    {
        match *self {
            BaudRate::Br9600 => 9600,
            BaudRate::Br14400 => 14400,
            BaudRate::Br19200 => 19200,
            BaudRate::Br28800 => 28800,
            BaudRate::Br38400 => 38400,
            BaudRate::Br56000 => 56000,
            BaudRate::Br57600 => 57600,
            BaudRate::Br115200 => 115200,
        }
    }
}

/// The word length of one frame.
#[derive(Clone, Copy, PartialEq, Eq, Structural, Debug)]
pub enum DataLength {
    DataLen8bits,
    DataLen9Bits,
}

/// How many stop bits close one frame.
#[derive(Clone, Copy, PartialEq, Eq, Structural, Debug)]
pub enum StopBits {
    Stop1,
    Stop05,
    Stop2,
    Stop15,
}

/// The desired transmitter settings; every field left unset falls back to
/// the hardware default (9600 baud, eight data bits, one stop bit).
#[derive(Clone, Copy, PartialEq, Eq, Structural, Debug)]
pub struct SerialConfig {
    pub baud_rate: Option<BaudRate>,
    pub data_length: Option<DataLength>,
    pub stop_bits: Option<StopBits>,
}

/// The masked baud-rate register word for a divisor: the divisor's mantissa
/// shifted into the register's twelve-bit field.
pub open spec fn brr_word(brr: u32) -> u32 {
    (brr << 4) & 0xFFF0u32
}

/// The two-bit stop-bits field value of a setting.
pub open spec fn stop_bits_value(s: StopBits) -> u8 {
    match s {
        StopBits::Stop1 => 0b00,
        StopBits::Stop05 => 0b01,
        StopBits::Stop2 => 0b10,
        StopBits::Stop15 => 0b11,
    }
}

impl SerialConfig {
    /// Start from the hardware defaults: nothing chosen yet.
    pub fn new() -> (r: SerialConfig)
        ensures
            r == (SerialConfig { baud_rate: None, data_length: None, stop_bits: None }),
    {
        SerialConfig { baud_rate: None, data_length: None, stop_bits: None }
    }

    /// Select the line rate.
    pub fn baud_rate(self, br: BaudRate) -> (r: SerialConfig)
        ensures
            r == (SerialConfig { baud_rate: Some(br), ..self }),
    {
        SerialConfig { baud_rate: Some(br), ..self }
    }

    /// Select the frame word length.
    pub fn data_length(self, len: DataLength) -> (r: SerialConfig)
        ensures
            r == (SerialConfig { data_length: Some(len), ..self }),
    {
        SerialConfig { data_length: Some(len), ..self }
    }

    /// Select the number of stop bits.
    pub fn stop_bits(self, stop: StopBits) -> (r: SerialConfig)
        ensures
            r == (SerialConfig { stop_bits: Some(stop), ..self }),
    {
        SerialConfig { stop_bits: Some(stop), ..self }
    }

    /// The baud-rate divisor: the peripheral clock divided by sixteen times
    /// the line rate, remainder truncated.
    pub fn br_conv(periph_freq: u32, br: u32) -> (r: u32)
        requires
            1 <= br <= 0x0FFF_FFFF,
        ensures
            r == periph_freq as int / (16 * br as int),
    {
        periph_freq / (16 * br)
    }

    /// The word to write to the baud-rate register, for the given effective
    /// peripheral-bus-1 frequency; an unset line rate falls back to 9600.
    pub fn brr_value(&self, apb1_clk: u32) -> (v: u32)
        ensures
            v == brr_word(
                (apb1_clk as int / (16 * baud_value(
                    match self.baud_rate {
                        Some(b) => b,
                        None => BaudRate::Br9600,
                    },
                ))) as u32,
            ),
    {
        let br: u32 = match self.baud_rate {
            Some(b) => b.as_val(),
            None => 9600,
        };
        let brr = SerialConfig::br_conv(apb1_clk, br);
        (brr << 4u32) & 0xFFF0u32
    }

    /// The frame-length control bit: set for nine data bits, clear for
    /// eight (also the fallback when no length was chosen).
    pub fn data_length_bit(&self) -> (b: bool)
        ensures
            b == (self.data_length matches Some(DataLength::DataLen9Bits)),
    {
        match self.data_length {
            Some(DataLength::DataLen9Bits) => true,
            Some(DataLength::DataLen8bits) => false,
            None => false,
        }
    }

    /// The two-bit stop-bits field value; an unset choice falls back to one
    /// stop bit.
    pub fn stop_bits_code(&self) -> (c: u8)
        ensures
            c == stop_bits_value(
                match self.stop_bits {
                    Some(s) => s,
                    None => StopBits::Stop1,
                },
            ),
            c < 4,
    {
        match self.stop_bits {
            Some(StopBits::Stop1) => 0b00,
            Some(StopBits::Stop05) => 0b01,
            Some(StopBits::Stop2) => 0b10,
            Some(StopBits::Stop15) => 0b11,
            None => 0b00,
        }
    }
}

} // verus!
