use clocktree::clocks::{
    AhbPre, ApbPre, ClockConfig, ClockError, ClockSpeeds, HsePllPre, PllMul, PllSrc, SysClockSrc,
    CLK_SETTING_TIMEOUT,
};
use clocktree::registers::ClockRegisters;

fn pll_hse_48mhz() -> ClockConfig {
    ClockConfig::new()
        .sys_clk_src(SysClockSrc::PllClock)
        .pll_src(PllSrc::Hse)
        .pll_div(HsePllPre::HseDiv1)
        .pll_mul(PllMul::Mul6)
        .ahb_pre(AhbPre::Pre1)
        .apb1_pre(ApbPre::Pre2)
        .apb2_pre(ApbPre::Pre1)
}

#[test]
fn reset_bank_reflects_hardware_defaults() {
    let bank = ClockRegisters::reset();
    assert!(bank.is_well_formed());
    let speeds = ClockConfig::get_speeds(&bank);
    assert_eq!(
        speeds,
        ClockSpeeds { sys_clk: 8_000_000, ahb_clk: 8_000_000, apb1_clk: 8_000_000, apb2_clk: 8_000_000 }
    );
}

#[test]
fn pll_scenario_runs_at_48_mhz() {
    let cfg = pll_hse_48mhz();
    let projected = cfg.validate_and_project().expect("the topology respects every ceiling");
    assert_eq!(
        projected,
        ClockSpeeds {
            sys_clk: 48_000_000,
            ahb_clk: 48_000_000,
            apb1_clk: 24_000_000,
            apb2_clk: 48_000_000,
        }
    );
    let mut bank = ClockRegisters::reset();
    let confirmed = cfg.configure(&mut bank).expect("bring-up settles on responsive hardware");
    assert_eq!(confirmed, cfg);
    let live = ClockConfig::get_speeds(&bank);
    assert_eq!(live, projected);
}

#[test]
fn overclock_scenario_fails_before_pll_enable() {
    let cfg = pll_hse_48mhz().pll_mul(PllMul::Mul16);
    assert!(matches!(cfg.validate_and_project(), Err(ClockError::SysClkOverClocking)));
    let mut bank = ClockRegisters::reset();
    let r = cfg.configure(&mut bank);
    assert!(matches!(r, Err(ClockError::SysClkOverClocking)));
    // Nothing was committed: the bank still holds its reset state, and in
    // particular the PLL was never enabled.
    assert_eq!(bank, ClockRegisters::reset());
    assert!(!bank.pll.enabled);
}

#[test]
fn apb1_ceiling_violation_reported() {
    let cfg = pll_hse_48mhz().apb1_pre(ApbPre::Pre1);
    assert!(matches!(cfg.validate_and_project(), Err(ClockError::Apb1OverClocking)));
    let mut bank = ClockRegisters::reset();
    assert!(matches!(cfg.configure(&mut bank), Err(ClockError::Apb1OverClocking)));
}

#[test]
fn multiplier_alias_projects_identically() {
    assert_eq!(PllMul::Mul16.as_val(), 16);
    assert_eq!(PllMul::Mul16Bis.as_val(), 16);
    assert_eq!(PllMul::Mul16.as_code(), 0b1110);
    assert_eq!(PllMul::Mul16Bis.as_code(), 0b1111);
    let halved = pll_hse_48mhz().pll_div(HsePllPre::HseDiv2).ahb_pre(AhbPre::Pre2);
    let a = halved.pll_mul(PllMul::Mul16);
    let b = halved.pll_mul(PllMul::Mul16Bis);
    let pa = a.validate_and_project().expect("4 MHz times 16 respects the ceilings");
    let pb = b.validate_and_project().expect("the alias projects the same product");
    assert_eq!(pa, pb);
    assert_eq!(pa.sys_clk, 64_000_000);
    let mut bank_a = ClockRegisters::reset();
    let mut bank_b = ClockRegisters::reset();
    a.configure(&mut bank_a).unwrap();
    b.configure(&mut bank_b).unwrap();
    assert_eq!(ClockConfig::get_speeds(&bank_a), ClockConfig::get_speeds(&bank_b));
}

#[test]
fn oracle_idempotent_between_configurations() {
    let mut bank = ClockRegisters::reset();
    pll_hse_48mhz().configure(&mut bank).unwrap();
    let first = ClockConfig::get_speeds(&bank);
    let second = ClockConfig::get_speeds(&bank);
    assert_eq!(first, second);
}

#[test]
fn hse_timeout_reported_after_full_budget() {
    let mut bank = ClockRegisters::reset();
    bank.hse.responds = false;
    let r = pll_hse_48mhz().configure(&mut bank);
    assert!(matches!(r, Err(ClockError::HseSettingFault)));
    assert_eq!(bank.last_poll_reads, CLK_SETTING_TIMEOUT);
    assert!(!bank.pll.enabled);
}

#[test]
fn hsi_timeout_reported_after_full_budget() {
    let mut bank = ClockRegisters::reset();
    bank.hsi.responds = false;
    let cfg = ClockConfig::new().sys_clk_src(SysClockSrc::HighSpeedInternal);
    let r = cfg.configure(&mut bank);
    assert!(matches!(r, Err(ClockError::HsiSettingFault)));
    assert_eq!(bank.last_poll_reads, CLK_SETTING_TIMEOUT);
}

#[test]
fn pll_timeout_reported_after_full_budget() {
    let mut bank = ClockRegisters::reset();
    bank.pll.responds = false;
    let r = pll_hse_48mhz().configure(&mut bank);
    assert!(matches!(r, Err(ClockError::PllSettingFault)));
    assert_eq!(bank.last_poll_reads, CLK_SETTING_TIMEOUT);
}

#[test]
fn mux_timeout_reported_after_full_budget() {
    let mut bank = ClockRegisters::reset();
    bank.mux_responds = false;
    let r = pll_hse_48mhz().configure(&mut bank);
    assert!(matches!(r, Err(ClockError::SysClkSettingFault)));
    assert_eq!(bank.last_poll_reads, CLK_SETTING_TIMEOUT);
}

#[test]
fn settling_on_the_last_read_still_succeeds() {
    let mut bank = ClockRegisters::reset();
    bank.hse.settle_reads = CLK_SETTING_TIMEOUT - 1;
    assert!(pll_hse_48mhz().configure(&mut bank).is_ok());
    let mut late = ClockRegisters::reset();
    late.hse.settle_reads = CLK_SETTING_TIMEOUT;
    assert!(matches!(pll_hse_48mhz().configure(&mut late), Err(ClockError::HseSettingFault)));
    assert_eq!(late.last_poll_reads, CLK_SETTING_TIMEOUT);
}

#[test]
fn builder_defaults_are_hardware_legal() {
    let cfg = ClockConfig::new();
    assert!(cfg.validate_and_project().is_ok());
    let mut bank = ClockRegisters::reset();
    cfg.configure(&mut bank).expect("the un-configured descriptor brings up cleanly");
    let speeds = ClockConfig::get_speeds(&bank);
    assert_eq!(
        speeds,
        ClockSpeeds { sys_clk: 8_000_000, ahb_clk: 8_000_000, apb1_clk: 4_000_000, apb2_clk: 8_000_000 }
    );
}

#[test]
fn internal_pll_path_runs_at_half_the_projection() {
    // The validator always projects the 8 MHz baseline into the multiplier,
    // but the PLL's internal input is fixed at half the oscillator, so the
    // realized frequency is half of what was validated.
    let cfg = ClockConfig::new()
        .sys_clk_src(SysClockSrc::PllClock)
        .pll_src(PllSrc::Hsi)
        .pll_mul(PllMul::Mul6);
    let projected = cfg.validate_and_project().unwrap();
    assert_eq!(projected.sys_clk, 48_000_000);
    let mut bank = ClockRegisters::reset();
    cfg.configure(&mut bank).unwrap();
    assert_eq!(ClockConfig::get_speeds(&bank).sys_clk, 24_000_000);
}

#[test]
fn prescaler_codes_and_values() {
    assert_eq!(PllMul::Mul2.as_val(), 2);
    assert_eq!(PllMul::Mul2.as_code(), 0);
    assert_eq!(PllMul::Mul9.as_val(), 9);
    assert_eq!(PllMul::Mul9.as_code(), 0b0111);
    let ahb = [
        (AhbPre::Pre1, 1u32, 0b0000u8),
        (AhbPre::Pre2, 2, 0b1000),
        (AhbPre::Pre4, 4, 0b1001),
        (AhbPre::Pre8, 8, 0b1010),
        (AhbPre::Pre16, 16, 0b1011),
        (AhbPre::Pre64, 64, 0b1100),
        (AhbPre::Pre128, 128, 0b1101),
        (AhbPre::Pre256, 256, 0b1110),
        (AhbPre::Pre512, 512, 0b1111),
    ];
    for (pre, val, code) in ahb {
        assert_eq!(pre.as_val(), val);
        assert_eq!(pre.as_code(), code);
    }
    let apb = [
        (ApbPre::Pre1, 1u32, 0b000u8),
        (ApbPre::Pre2, 2, 0b100),
        (ApbPre::Pre4, 4, 0b101),
        (ApbPre::Pre8, 8, 0b110),
        (ApbPre::Pre16, 16, 0b111),
    ];
    for (pre, val, code) in apb {
        assert_eq!(pre.as_val(), val);
        assert_eq!(pre.as_code(), code);
    }
}

#[test]
fn deep_division_chain_is_exact() {
    // 64 MHz through the largest core-bus divider, then the largest
    // peripheral dividers: every stage is exact integer division.
    let cfg = pll_hse_48mhz()
        .pll_div(HsePllPre::HseDiv2)
        .pll_mul(PllMul::Mul16)
        .ahb_pre(AhbPre::Pre512)
        .apb1_pre(ApbPre::Pre16)
        .apb2_pre(ApbPre::Pre16);
    let mut bank = ClockRegisters::reset();
    cfg.configure(&mut bank).unwrap();
    let speeds = ClockConfig::get_speeds(&bank);
    assert_eq!(speeds.sys_clk, 64_000_000);
    assert_eq!(speeds.ahb_clk, 125_000);
    assert_eq!(speeds.apb1_clk, 7_812);
    assert_eq!(speeds.apb2_clk, 7_812);
}
