//! Serial peripheral interface configuration.
//!
//! Only the configuration value type and its builder are functional: the
//! driver itself never made it past validating and carrying its settings,
//! so `configure` hands the chosen settings over unchanged.

use vstd::prelude::*;

verus! {

/// What can go wrong when configuring the peripheral.
#[derive(Clone, Copy, PartialEq, Eq, Structural, Debug)]
pub enum SpiError {
    ConfigError,
}

/// Which of the two peripheral instances to drive.
#[derive(Clone, Copy, PartialEq, Eq, Structural, Debug)]
pub enum Periph {
    Spi1,
    Spi2,
}

/// Which of the instance's pin mappings to use.
#[derive(Clone, Copy, PartialEq, Eq, Structural, Debug)]
pub enum PinSet {
    First,
    Second,
}

/// The width of one data frame.
#[derive(Clone, Copy, PartialEq, Eq, Structural, Debug)]
pub enum DataFrameFormat {
    Bits8,
    Bits16,
}

/// Which end of a frame is shifted out first.
#[derive(Clone, Copy, PartialEq, Eq, Structural, Debug)]
pub enum DirFrameFormat {
    MsbFirst,
    LsbFirst,
}

/// The bus-clock prescaler feeding the shift clock.
#[derive(Clone, Copy, PartialEq, Eq, Structural, Debug)]
pub enum FreqPrescaler {
    Div2,
    Div4,
    Div8,
    Div16,
    Div32,
    Div64,
    Div128,
    Div256,
}

/// The idle level of the shift clock.
#[derive(Clone, Copy, PartialEq, Eq, Structural, Debug)]
pub enum ClockPolarity {
    Low,
    High,
}

/// Which clock edge samples the data line.
#[derive(Clone, Copy, PartialEq, Eq, Structural, Debug)]
pub enum ClockPhase {
    FirstEdge,
    SecondEdge,
}

/// The transfer direction arrangement.
#[derive(Clone, Copy, PartialEq, Eq, Structural, Debug)]
pub enum DataMode {
    FullDuplex,
    FullDuplexRecv,
    HalfDuplexRecv,
    HalfDuplexSend,
}

/// The desired peripheral settings, built with the chained setters.
#[derive(Clone, Copy, PartialEq, Eq, Structural, Debug)]
pub struct SpiConfig {
    pub periph: Periph,
    pub pin_set: u8,
    pub data_frame_format: DataFrameFormat,
    pub data_dir: DirFrameFormat,
    pub prescaler: FreqPrescaler,
    pub master: bool,
    pub clk_pol: ClockPolarity,
    pub clk_pha: ClockPhase,
    pub data_mode: DataMode,
}

/// A configured peripheral handle carrying the committed settings.
#[derive(Clone, Copy, PartialEq, Eq, Structural, Debug)]
pub struct Spi {
    pub periph: Periph,
    pub pin_set: u8,
    pub data_frame_format: DataFrameFormat,
    pub data_dir: DirFrameFormat,
    pub prescaler: FreqPrescaler,
    pub master: bool,
    pub clk_pol: ClockPolarity,
    pub clk_pha: ClockPhase,
    pub data_mode: DataMode,
}

impl SpiConfig {
    /// The baseline: first instance on its first pin mapping, eight-bit
    /// frames most-significant-bit first, a moderate prescaler, master
    /// mode, idle-low first-edge clocking, full duplex.
    pub fn new() -> (r: SpiConfig)
        ensures
            r == (SpiConfig {
                periph: Periph::Spi1,
                pin_set: 1,
                data_frame_format: DataFrameFormat::Bits8,
                data_dir: DirFrameFormat::MsbFirst,
                prescaler: FreqPrescaler::Div4,
                master: true,
                clk_pol: ClockPolarity::Low,
                clk_pha: ClockPhase::FirstEdge,
                data_mode: DataMode::FullDuplex,
            }),
    {
        SpiConfig {
            periph: Periph::Spi1,
            pin_set: 1,
            data_frame_format: DataFrameFormat::Bits8,
            data_dir: DirFrameFormat::MsbFirst,
            prescaler: FreqPrescaler::Div4,
            master: true,
            clk_pol: ClockPolarity::Low,
            clk_pha: ClockPhase::FirstEdge,
            data_mode: DataMode::FullDuplex,
        }
    }

    /// Select the peripheral instance.
    pub fn instance(self, p: Periph) -> (r: SpiConfig)
        ensures
            r == (SpiConfig { periph: p, ..self }),
    {
        SpiConfig { periph: p, ..self }
    }

    /// Select the pin mapping.
    pub fn pin_set(self, ps: u8) -> (r: SpiConfig)
        ensures
            r == (SpiConfig { pin_set: ps, ..self }),
    {
        SpiConfig { pin_set: ps, ..self }
    }

    /// Select the frame width.
    pub fn data_frame_format(self, dff: DataFrameFormat) -> (r: SpiConfig)
        ensures
            r == (SpiConfig { data_frame_format: dff, ..self }),
    {
        SpiConfig { data_frame_format: dff, ..self }
    }

    /// Select which end of a frame goes first.
    pub fn dir_frame_format(self, dff: DirFrameFormat) -> (r: SpiConfig)
        ensures
            r == (SpiConfig { data_dir: dff, ..self }),
    {
        SpiConfig { data_dir: dff, ..self }
    }

    /// Select the shift-clock prescaler.
    pub fn prescaler(self, psc: FreqPrescaler) -> (r: SpiConfig)
        ensures
            r == (SpiConfig { prescaler: psc, ..self }),
    {
        SpiConfig { prescaler: psc, ..self }
    }

    /// Select the idle clock level.
    pub fn clock_polarity(self, cp: ClockPolarity) -> (r: SpiConfig)
        ensures
            r == (SpiConfig { clk_pol: cp, ..self }),
    {
        SpiConfig { clk_pol: cp, ..self }
    }

    /// Select the sampling edge.
    pub fn clock_phase(self, cp: ClockPhase) -> (r: SpiConfig)
        ensures
            r == (SpiConfig { clk_pha: cp, ..self }),
    {
        SpiConfig { clk_pha: cp, ..self }
    }

    /// Select master or slave operation.
    pub fn master(self, en: bool) -> (r: SpiConfig)
        ensures
            r == (SpiConfig { master: en, ..self }),
    {
        SpiConfig { master: en, ..self }
    }

    /// Select the transfer direction arrangement.
    pub fn data_mode(self, dm: DataMode) -> (r: SpiConfig)
        ensures
            r == (SpiConfig { data_mode: dm, ..self }),
    {
        SpiConfig { data_mode: dm, ..self }
    }

    /// Hand the chosen settings over as a configured handle.
    pub fn configure(&mut self) -> (r: Result<Spi, SpiError>)
        ensures
            *final(self) == *old(self),
            r matches Ok(s) && s == (Spi {
                periph: old(self).periph,
                pin_set: old(self).pin_set,
                data_frame_format: old(self).data_frame_format,
                data_dir: old(self).data_dir,
                prescaler: old(self).prescaler,
                master: old(self).master,
                clk_pol: old(self).clk_pol,
                clk_pha: old(self).clk_pha,
                data_mode: old(self).data_mode,
            }),
    {
        Ok(
            Spi {
                periph: self.periph,
                pin_set: self.pin_set,
                data_frame_format: self.data_frame_format,
                data_dir: self.data_dir,
                prescaler: self.prescaler,
                master: self.master,
                clk_pol: self.clk_pol,
                clk_pha: self.clk_pha,
                data_mode: self.data_mode,
            },
        )
    }
}

} // verus!
