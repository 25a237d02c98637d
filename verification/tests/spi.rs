use clocktree::spi::{
    ClockPhase, ClockPolarity, DataFrameFormat, DataMode, DirFrameFormat, FreqPrescaler, Periph,
    SpiConfig,
};

#[test]
fn spi_defaults() {
    let cfg = SpiConfig::new();
    assert_eq!(cfg.periph, Periph::Spi1);
    assert_eq!(cfg.pin_set, 1);
    assert_eq!(cfg.data_frame_format, DataFrameFormat::Bits8);
    assert_eq!(cfg.data_dir, DirFrameFormat::MsbFirst);
    assert_eq!(cfg.prescaler, FreqPrescaler::Div4);
    assert!(cfg.master);
    assert_eq!(cfg.clk_pol, ClockPolarity::Low);
    assert_eq!(cfg.clk_pha, ClockPhase::FirstEdge);
    assert_eq!(cfg.data_mode, DataMode::FullDuplex);
}

#[test]
fn spi_builder_and_configure_carry_settings() {
    let mut cfg = SpiConfig::new()
        .instance(Periph::Spi2)
        .pin_set(2)
        .data_frame_format(DataFrameFormat::Bits16)
        .dir_frame_format(DirFrameFormat::LsbFirst)
        .prescaler(FreqPrescaler::Div64)
        .clock_polarity(ClockPolarity::High)
        .clock_phase(ClockPhase::SecondEdge)
        .master(false)
        .data_mode(DataMode::HalfDuplexSend);
    let spi = cfg.configure().expect("configuration always succeeds");
    assert_eq!(spi.periph, Periph::Spi2);
    assert_eq!(spi.pin_set, 2);
    assert_eq!(spi.data_frame_format, DataFrameFormat::Bits16);
    assert_eq!(spi.data_dir, DirFrameFormat::LsbFirst);
    assert_eq!(spi.prescaler, FreqPrescaler::Div64);
    assert!(!spi.master);
    assert_eq!(spi.clk_pol, ClockPolarity::High);
    assert_eq!(spi.clk_pha, ClockPhase::SecondEdge);
    assert_eq!(spi.data_mode, DataMode::HalfDuplexSend);
}
