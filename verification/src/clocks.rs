//! The clock tree: configuration descriptor, validator, bring-up sequencer
//! and frequency oracle.
//!
//! A `ClockConfig` describes the desired topology (system clock source, PLL
//! input, predivider and multiplier, and the three bus prescalers).  Its
//! projected frequencies are validated against the hardware-rated ceilings
//! before any register field is committed; the sequencer then brings the
//! hardware model up stage by stage, polling each readiness line with a
//! bounded budget, and the oracle reads the effective frequencies back from
//! the committed register state alone.

use vstd::prelude::*;

use crate::registers::{ClockRegisters, OscLine, poll_mux, poll_ready};

verus! {

/// Everything that can go wrong during clock bring-up: the four frequency
/// ceilings, and the four readiness lines that can fail to settle.
#[derive(Clone, Copy, PartialEq, Eq, Structural, Debug)]
pub enum ClockError {
    SysClkOverClocking,
    AhbOverClocking,
    Apb1OverClocking,
    Apb2OverClocking,
    PllSettingFault,
    HsiSettingFault,
    HseSettingFault,
    SysClkSettingFault,
}

/// Which source feeds the system clock mux.
#[derive(Clone, Copy, PartialEq, Eq, Structural, Debug)]
pub enum SysClockSrc {
    HighSpeedInternal,
    PllClock,
    HighSpeedExternal,
}

/// The PLL multiplier.  The four-bit hardware field encodes the factor as
/// code plus two, except that the last two codes both select a factor of
/// sixteen: `Mul16` and `Mul16Bis` are aliases, not distinct values.
#[derive(Clone, Copy, PartialEq, Eq, Structural, Debug)]
pub enum PllMul {
    Mul2,
    Mul3,
    Mul4,
    Mul5,
    Mul6,
    Mul7,
    Mul8,
    Mul9,
    Mul10,
    Mul11,
    Mul12,
    Mul13,
    Mul14,
    Mul15,
    Mul16,
    Mul16Bis,
}

/// The numeric factor a multiplier setting stands for.
pub open spec fn pll_mul_value(m: PllMul) -> int {
    match m {
        PllMul::Mul2 => 2,
        PllMul::Mul3 => 3,
        PllMul::Mul4 => 4,
        PllMul::Mul5 => 5,
        PllMul::Mul6 => 6,
        PllMul::Mul7 => 7,
        PllMul::Mul8 => 8,
        PllMul::Mul9 => 9,
        PllMul::Mul10 => 10,
        PllMul::Mul11 => 11,
        PllMul::Mul12 => 12,
        PllMul::Mul13 => 13,
        PllMul::Mul14 => 14,
        PllMul::Mul15 => 15,
        PllMul::Mul16 => 16,
        PllMul::Mul16Bis => 16,
    }
}

/// The four-bit field encoding of a multiplier setting.
pub open spec fn pll_mul_code(m: PllMul) -> u8 {
    match m {
        PllMul::Mul2 => 0b0000,
        PllMul::Mul3 => 0b0001,
        PllMul::Mul4 => 0b0010,
        PllMul::Mul5 => 0b0011,
        PllMul::Mul6 => 0b0100,
        PllMul::Mul7 => 0b0101,
        PllMul::Mul8 => 0b0110,
        PllMul::Mul9 => 0b0111,
        PllMul::Mul10 => 0b1000,
        PllMul::Mul11 => 0b1001,
        PllMul::Mul12 => 0b1010,
        PllMul::Mul13 => 0b1011,
        PllMul::Mul14 => 0b1100,
        PllMul::Mul15 => 0b1101,
        PllMul::Mul16 => 0b1110,
        PllMul::Mul16Bis => 0b1111,
    }
}

impl PllMul {
    /// The numeric multiplication factor.
    pub fn as_val(&self) -> (r: u32)
        ensures
            r == pll_mul_value(*self),
            2 <= r <= 16,
    {
        match *self {
            PllMul::Mul2 => 2,
            PllMul::Mul3 => 3,
            PllMul::Mul4 => 4,
            PllMul::Mul5 => 5,
            PllMul::Mul6 => 6,
            PllMul::Mul7 => 7,
            PllMul::Mul8 => 8,
            PllMul::Mul9 => 9,
            PllMul::Mul10 => 10,
            PllMul::Mul11 => 11,
            PllMul::Mul12 => 12,
            PllMul::Mul13 => 13,
            PllMul::Mul14 => 14,
            PllMul::Mul15 => 15,
            PllMul::Mul16 => 16,
            PllMul::Mul16Bis => 16,
        }
    }

    /// The value written into the four-bit multiplier field.
    pub fn as_code(&self) -> (r: u8)
        ensures
            r == pll_mul_code(*self),
            r < 16,
    {
        match *self {
            PllMul::Mul2 => 0b0000,
            PllMul::Mul3 => 0b0001,
            PllMul::Mul4 => 0b0010,
            PllMul::Mul5 => 0b0011,
            PllMul::Mul6 => 0b0100,
            PllMul::Mul7 => 0b0101,
            PllMul::Mul8 => 0b0110,
            PllMul::Mul9 => 0b0111,
            PllMul::Mul10 => 0b1000,
            PllMul::Mul11 => 0b1001,
            PllMul::Mul12 => 0b1010,
            PllMul::Mul13 => 0b1011,
            PllMul::Mul14 => 0b1100,
            PllMul::Mul15 => 0b1101,
            PllMul::Mul16 => 0b1110,
            PllMul::Mul16Bis => 0b1111,
        }
    }
}

/// Whether the external oscillator is halved before it enters the PLL.
#[derive(Clone, Copy, PartialEq, Eq, Structural, Debug)]
pub enum HsePllPre {
    HseDiv1,
    HseDiv2,
}

/// Which oscillator feeds the PLL.
#[derive(Clone, Copy, PartialEq, Eq, Structural, Debug)]
pub enum PllSrc {
    Hsi,
    Hse,
}

/// A peripheral-bus prescaler.
#[derive(Clone, Copy, PartialEq, Eq, Structural, Debug)]
pub enum ApbPre {
    Pre1,
    Pre2,
    Pre4,
    Pre8,
    Pre16,
}

/// The division factor of a peripheral-bus prescaler.
pub open spec fn apb_value(p: ApbPre) -> int {
    match p {
        ApbPre::Pre1 => 1,
        ApbPre::Pre2 => 2,
        ApbPre::Pre4 => 4,
        ApbPre::Pre8 => 8,
        ApbPre::Pre16 => 16,
    }
}

/// The three-bit field encoding of a peripheral-bus prescaler.
pub open spec fn apb_code(p: ApbPre) -> u8 {
    match p {
        ApbPre::Pre1 => 0b000,
        ApbPre::Pre2 => 0b100,
        ApbPre::Pre4 => 0b101,
        ApbPre::Pre8 => 0b110,
        ApbPre::Pre16 => 0b111,
    }
}

impl ApbPre {
    /// The numeric division factor.
    pub fn as_val(&self) -> (r: u32)
        ensures
            r == apb_value(*self),
            1 <= r <= 16,
    {
        match *self {
            ApbPre::Pre1 => 1,
            ApbPre::Pre2 => 2,
            ApbPre::Pre4 => 4,
            ApbPre::Pre8 => 8,
            ApbPre::Pre16 => 16,
        }
    }

    /// The value written into the three-bit prescaler field.
    pub fn as_code(&self) -> (r: u8)
        ensures
            r == apb_code(*self),
            r < 8,
    {
        match *self {
            ApbPre::Pre1 => 0b000,
            ApbPre::Pre2 => 0b100,
            ApbPre::Pre4 => 0b101,
            ApbPre::Pre8 => 0b110,
            ApbPre::Pre16 => 0b111,
        }
    }
}

/// The core-bus prescaler.
#[derive(Clone, Copy, PartialEq, Eq, Structural, Debug)]
pub enum AhbPre {
    Pre1,
    Pre2,
    Pre4,
    Pre8,
    Pre16,
    Pre64,
    Pre128,
    Pre256,
    Pre512,
}

/// The division factor of the core-bus prescaler.  Note the jump from
/// sixteen to sixty-four: the factor is not a simple power of the code.
pub open spec fn ahb_value(p: AhbPre) -> int {
    match p {
        AhbPre::Pre1 => 1,
        AhbPre::Pre2 => 2,
        AhbPre::Pre4 => 4,
        AhbPre::Pre8 => 8,
        AhbPre::Pre16 => 16,
        AhbPre::Pre64 => 64,
        AhbPre::Pre128 => 128,
        AhbPre::Pre256 => 256,
        AhbPre::Pre512 => 512,
    }
}

/// The four-bit field encoding of the core-bus prescaler.
pub open spec fn ahb_code(p: AhbPre) -> u8 {
    match p {
        AhbPre::Pre1 => 0b0000,
        AhbPre::Pre2 => 0b1000,
        AhbPre::Pre4 => 0b1001,
        AhbPre::Pre8 => 0b1010,
        AhbPre::Pre16 => 0b1011,
        AhbPre::Pre64 => 0b1100,
        AhbPre::Pre128 => 0b1101,
        AhbPre::Pre256 => 0b1110,
        AhbPre::Pre512 => 0b1111,
    }
}

impl AhbPre {
    /// The numeric division factor.
    pub fn as_val(&self) -> (r: u32)
        ensures
            r == ahb_value(*self),
            1 <= r <= 512,
    {
        match *self {
            AhbPre::Pre1 => 1,
            AhbPre::Pre2 => 2,
            AhbPre::Pre4 => 4,
            AhbPre::Pre8 => 8,
            AhbPre::Pre16 => 16,
            AhbPre::Pre64 => 64,
            AhbPre::Pre128 => 128,
            AhbPre::Pre256 => 256,
            AhbPre::Pre512 => 512,
        }
    }

    /// The value written into the four-bit prescaler field.
    pub fn as_code(&self) -> (r: u8)
        ensures
            r == ahb_code(*self),
            r < 16,
    {
        match *self {
            AhbPre::Pre1 => 0b0000,
            AhbPre::Pre2 => 0b1000,
            AhbPre::Pre4 => 0b1001,
            AhbPre::Pre8 => 0b1010,
            AhbPre::Pre16 => 0b1011,
            AhbPre::Pre64 => 0b1100,
            AhbPre::Pre128 => 0b1101,
            AhbPre::Pre256 => 0b1110,
            AhbPre::Pre512 => 0b1111,
        }
    }
}

/// The four effective bus frequencies, in hertz.
#[derive(Clone, Copy, PartialEq, Eq, Structural, Debug)]
pub struct ClockSpeeds {
    pub sys_clk: u32,
    pub ahb_clk: u32,
    pub apb1_clk: u32,
    pub apb2_clk: u32,
}

/// The desired clock topology, built with the chained setters and consumed
/// by `configure`.
#[derive(Clone, Copy, PartialEq, Eq, Structural, Debug)]
pub struct ClockConfig {
    pub sysclk_src: SysClockSrc,
    pub pll_src: PllSrc,
    pub pll_mul: PllMul,
    pub pll_div: HsePllPre,
    pub ahb_pre: AhbPre,
    pub apb1_pre: ApbPre,
    pub apb2_pre: ApbPre,
}

/// Nominal external oscillator frequency.
pub const EXT_CLK_FREQ: u32 = 8_000_000;

/// Nominal internal oscillator frequency.
pub const INT_CLK_FREQ: u32 = 8_000_000;

/// How many status reads a bounded readiness poll may perform.
pub const CLK_SETTING_TIMEOUT: u32 = 100;

/// Rated ceiling of the system clock.
pub const MAX_SYS_FREQ: u32 = 72_000_000;

/// Rated ceiling of the core bus.
pub const MAX_AHB_FREQ: u32 = MAX_SYS_FREQ;

/// Rated ceiling of peripheral bus 2.
pub const MAX_APB2_FREQ: u32 = MAX_SYS_FREQ;

/// Rated ceiling of peripheral bus 1.
pub const MAX_APB1_FREQ: u32 = 36_000_000;

/// The PLL input frequency the validator projects: the 8 MHz baseline,
/// halved when the external oscillator path runs through the predivider.
pub open spec fn projected_input(cfg: ClockConfig) -> int {
    if cfg.pll_src is Hse && cfg.pll_div is HseDiv2 {
        (INT_CLK_FREQ / 2) as int
    } else {
        INT_CLK_FREQ as int
    }
}

/// The projected system frequency: the PLL-path product, validated whatever
/// source the mux will finally select.
pub open spec fn projected_sys(cfg: ClockConfig) -> int {
    projected_input(cfg) * pll_mul_value(cfg.pll_mul)
}

/// The projected core-bus frequency.
pub open spec fn projected_ahb(cfg: ClockConfig) -> int {
    projected_sys(cfg) / ahb_value(cfg.ahb_pre)
}

/// The projected peripheral-bus-1 frequency.
pub open spec fn projected_apb1(cfg: ClockConfig) -> int {
    projected_ahb(cfg) / apb_value(cfg.apb1_pre)
}

/// The projected peripheral-bus-2 frequency.
pub open spec fn projected_apb2(cfg: ClockConfig) -> int {
    projected_ahb(cfg) / apb_value(cfg.apb2_pre)
}

/// All four projected frequencies respect their rated ceilings.
pub open spec fn within_ceilings(cfg: ClockConfig) -> bool {
    &&& projected_sys(cfg) <= MAX_SYS_FREQ
    &&& projected_ahb(cfg) <= MAX_AHB_FREQ
    &&& projected_apb1(cfg) <= MAX_APB1_FREQ
    &&& projected_apb2(cfg) <= MAX_APB2_FREQ
}

impl ClockConfig {
    /// The safe baseline topology: external oscillator selected directly, no
    /// PLL in the path, identity-or-safe dividers everywhere.
    pub fn new() -> (r: ClockConfig)
        ensures
            r == (ClockConfig {
                sysclk_src: SysClockSrc::HighSpeedExternal,
                pll_src: PllSrc::Hse,
                pll_mul: PllMul::Mul2,
                pll_div: HsePllPre::HseDiv2,
                ahb_pre: AhbPre::Pre1,
                apb1_pre: ApbPre::Pre2,
                apb2_pre: ApbPre::Pre1,
            }),
    {
        ClockConfig {
            sysclk_src: SysClockSrc::HighSpeedExternal,
            pll_src: PllSrc::Hse,
            pll_mul: PllMul::Mul2,
            pll_div: HsePllPre::HseDiv2,
            ahb_pre: AhbPre::Pre1,
            apb1_pre: ApbPre::Pre2,
            apb2_pre: ApbPre::Pre1,
        }
    }

    /// Select the system clock source.
    pub fn sys_clk_src(self, scr: SysClockSrc) -> (r: ClockConfig)
        ensures
            r == (ClockConfig { sysclk_src: scr, ..self }),
    {
        ClockConfig { sysclk_src: scr, ..self }
    }

    /// Select the PLL input oscillator.
    pub fn pll_src(self, ps: PllSrc) -> (r: ClockConfig)
        ensures
            r == (ClockConfig { pll_src: ps, ..self }),
    {
        ClockConfig { pll_src: ps, ..self }
    }

    /// Select the PLL multiplier.
    pub fn pll_mul(self, pm: PllMul) -> (r: ClockConfig)
        ensures
            r == (ClockConfig { pll_mul: pm, ..self }),
    {
        ClockConfig { pll_mul: pm, ..self }
    }

    /// Select the PLL predivider for the external oscillator path.
    pub fn pll_div(self, pd: HsePllPre) -> (r: ClockConfig)
        ensures
            r == (ClockConfig { pll_div: pd, ..self }),
    {
        ClockConfig { pll_div: pd, ..self }
    }

    /// Select the core-bus prescaler.
    pub fn ahb_pre(self, ahbp: AhbPre) -> (r: ClockConfig)
        ensures
            r == (ClockConfig { ahb_pre: ahbp, ..self }),
    {
        ClockConfig { ahb_pre: ahbp, ..self }
    }

    /// Select the peripheral-bus-1 prescaler.
    pub fn apb1_pre(self, app: ApbPre) -> (r: ClockConfig)
        ensures
            r == (ClockConfig { apb1_pre: app, ..self }),
    {
        ClockConfig { apb1_pre: app, ..self }
    }

    /// Select the peripheral-bus-2 prescaler.
    pub fn apb2_pre(self, app: ApbPre) -> (r: ClockConfig)
        ensures
            r == (ClockConfig { apb2_pre: app, ..self }),
    {
        ClockConfig { apb2_pre: app, ..self }
    }

    /// Compute the projected frequencies of this topology and check each one
    /// against its ceiling, in the order the hardware stages would be
    /// committed, without touching any register.  Fails with the error of
    /// the first ceiling exceeded.
    pub fn validate_and_project(&self) -> (r: Result<ClockSpeeds, ClockError>)
        ensures
            r is Ok <==> within_ceilings(*self),
            r matches Ok(s) ==> s.sys_clk == projected_sys(*self) && s.ahb_clk == projected_ahb(
                *self,
            ) && s.apb1_clk == projected_apb1(*self) && s.apb2_clk == projected_apb2(*self),
            r matches Err(ClockError::SysClkOverClocking) <==> projected_sys(*self)
                > MAX_SYS_FREQ,
            r matches Err(ClockError::AhbOverClocking) <==> projected_sys(*self) <= MAX_SYS_FREQ
                && projected_ahb(*self) > MAX_AHB_FREQ,
            r matches Err(ClockError::Apb1OverClocking) <==> projected_sys(*self) <= MAX_SYS_FREQ
                && projected_ahb(*self) <= MAX_AHB_FREQ && projected_apb1(*self) > MAX_APB1_FREQ,
            r matches Err(ClockError::Apb2OverClocking) <==> projected_sys(*self) <= MAX_SYS_FREQ
                && projected_ahb(*self) <= MAX_AHB_FREQ && projected_apb1(*self) <= MAX_APB1_FREQ
                && projected_apb2(*self) > MAX_APB2_FREQ,
    {
        let mut input: u32 = INT_CLK_FREQ;
        if self.pll_src == PllSrc::Hse && self.pll_div == HsePllPre::HseDiv2 {
            input = input / 2;
        }
        let mul: u32 = self.pll_mul.as_val();
        let sys: u32 = input * mul;
        if sys > MAX_SYS_FREQ {
            return Err(ClockError::SysClkOverClocking);
        }
        let ahb: u32 = sys / self.ahb_pre.as_val();
        if ahb > MAX_AHB_FREQ {
            return Err(ClockError::AhbOverClocking);
        }
        let apb1: u32 = ahb / self.apb1_pre.as_val();
        if apb1 > MAX_APB1_FREQ {
            return Err(ClockError::Apb1OverClocking);
        }
        let apb2: u32 = ahb / self.apb2_pre.as_val();
        if apb2 > MAX_APB2_FREQ {
            return Err(ClockError::Apb2OverClocking);
        }
        Ok(ClockSpeeds { sys_clk: sys, ahb_clk: ahb, apb1_clk: apb1, apb2_clk: apb2 })
    }
}

/// The multiplication factor a committed four-bit multiplier field stands
/// for: code plus two, with the last code aliasing the factor sixteen.
pub open spec fn pll_mul_of_code(c: u8) -> int {
    if c == 15 {
        16
    } else {
        c + 2
    }
}

/// The division factor a committed core-bus divider field stands for, or
/// zero for the field values that encode no divider.
pub open spec fn ahb_div_of_code(c: u8) -> int {
    if c == 0b0000 {
        1
    } else if c == 0b1000 {
        2
    } else if c == 0b1001 {
        4
    } else if c == 0b1010 {
        8
    } else if c == 0b1011 {
        16
    } else if c == 0b1100 {
        64
    } else if c == 0b1101 {
        128
    } else if c == 0b1110 {
        256
    } else if c == 0b1111 {
        512
    } else {
        0
    }
}

/// The division factor a committed peripheral-bus divider field stands for,
/// or zero for the field values that encode no divider.
pub open spec fn apb_div_of_code(c: u8) -> int {
    if c == 0b000 {
        1
    } else if c == 0b100 {
        2
    } else if c == 0b101 {
        4
    } else if c == 0b110 {
        8
    } else if c == 0b111 {
        16
    } else {
        0
    }
}

/// The PLL input frequency the oracle reconstructs from the committed
/// source and predivider bits.  The internal oscillator always enters the
/// PLL through a fixed halver.
pub open spec fn oracle_pll_input(regs: ClockRegisters) -> int {
    if !regs.pll_src_hse {
        (INT_CLK_FREQ / 2) as int
    } else if !regs.pll_hse_div2 {
        EXT_CLK_FREQ as int
    } else {
        (EXT_CLK_FREQ / 2) as int
    }
}

/// The effective system frequency, read bottom-up from the mux status
/// field; zero when the status field holds the reserved value.
pub open spec fn oracle_sys(regs: ClockRegisters) -> int {
    if regs.sws_code == 0b00 {
        INT_CLK_FREQ as int
    } else if regs.sws_code == 0b01 {
        EXT_CLK_FREQ as int
    } else if regs.sws_code == 0b10 {
        oracle_pll_input(regs) * pll_mul_of_code(regs.pll_mul_code)
    } else {
        0
    }
}

/// The effective core-bus frequency; zero when the divider field holds a
/// value that encodes no divider.
pub open spec fn oracle_ahb(regs: ClockRegisters) -> int {
    if ahb_div_of_code(regs.ahb_code) == 0 {
        0
    } else {
        oracle_sys(regs) / ahb_div_of_code(regs.ahb_code)
    }
}

/// The effective peripheral-bus-1 frequency.
pub open spec fn oracle_apb1(regs: ClockRegisters) -> int {
    if apb_div_of_code(regs.apb1_code) == 0 {
        0
    } else {
        oracle_ahb(regs) / apb_div_of_code(regs.apb1_code)
    }
}

/// The effective peripheral-bus-2 frequency.
pub open spec fn oracle_apb2(regs: ClockRegisters) -> int {
    if apb_div_of_code(regs.apb2_code) == 0 {
        0
    } else {
        oracle_ahb(regs) / apb_div_of_code(regs.apb2_code)
    }
}

/// The given speeds are exactly what the oracle reads from the given
/// register state.
pub open spec fn speeds_match(regs: ClockRegisters, s: ClockSpeeds) -> bool {
    &&& s.sys_clk == oracle_sys(regs)
    &&& s.ahb_clk == oracle_ahb(regs)
    &&& s.apb1_clk == oracle_apb1(regs)
    &&& s.apb2_clk == oracle_apb2(regs)
}

/// Map a committed core-bus divider field back to its division factor.
fn ahb_div_for_code(c: u8) -> (d: u32)
    ensures
        d == ahb_div_of_code(c),
{
    if c == 0b0000 {
        1
    } else if c == 0b1000 {
        2
    } else if c == 0b1001 {
        4
    } else if c == 0b1010 {
        8
    } else if c == 0b1011 {
        16
    } else if c == 0b1100 {
        64
    } else if c == 0b1101 {
        128
    } else if c == 0b1110 {
        256
    } else if c == 0b1111 {
        512
    } else {
        0
    }
}

/// Map a committed peripheral-bus divider field back to its division factor.
fn apb_div_for_code(c: u8) -> (d: u32)
    ensures
        d == apb_div_of_code(c),
{
    if c == 0b000 {
        1
    } else if c == 0b100 {
        2
    } else if c == 0b101 {
        4
    } else if c == 0b110 {
        8
    } else if c == 0b111 {
        16
    } else {
        0
    }
}

impl ClockConfig {
    /// The frequency oracle: reconstruct the four effective bus frequencies
    /// bottom-up from the committed register state alone, never from a
    /// descriptor.  It is sound against configuration performed by other
    /// code, and reflects the hardware reset defaults before any bring-up.
    pub fn get_speeds(regs: &ClockRegisters) -> (s: ClockSpeeds)
        requires
            regs.wf(),
        ensures
            speeds_match(*regs, s),
    {
        let sys_clk: u32 = if regs.sws_code == 0b00 {
            INT_CLK_FREQ
        } else if regs.sws_code == 0b01 {
            EXT_CLK_FREQ
        } else if regs.sws_code == 0b10 {
            let input: u32 = if !regs.pll_src_hse {
                INT_CLK_FREQ / 2
            } else if !regs.pll_hse_div2 {
                EXT_CLK_FREQ
            } else {
                EXT_CLK_FREQ / 2
            };
            let mul: u32 = if regs.pll_mul_code == 15 {
                16
            } else {
                regs.pll_mul_code as u32 + 2
            };
            assert(input * mul <= 128_000_000) by (nonlinear_arith)
                requires
                    input <= 8_000_000,
                    mul <= 16,
            ;
            input * mul
        } else {
            0
        };
        let ahb_div: u32 = ahb_div_for_code(regs.ahb_code);
        let ahb_clk: u32 = if ahb_div == 0 {
            0
        } else {
            sys_clk / ahb_div
        };
        let apb1_div: u32 = apb_div_for_code(regs.apb1_code);
        let apb1_clk: u32 = if apb1_div == 0 {
            0
        } else {
            ahb_clk / apb1_div
        };
        let apb2_div: u32 = apb_div_for_code(regs.apb2_code);
        let apb2_clk: u32 = if apb2_div == 0 {
            0
        } else {
            ahb_clk / apb2_div
        };
        ClockSpeeds { sys_clk, ahb_clk, apb1_clk, apb2_clk }
    }
}

/// The topology routes the system clock through the PLL.
pub open spec fn uses_pll(cfg: ClockConfig) -> bool {
    cfg.sysclk_src is PllClock
}

/// Bring-up must enable and settle the external oscillator.
pub open spec fn needs_hse(cfg: ClockConfig) -> bool {
    cfg.sysclk_src is HighSpeedExternal || (cfg.sysclk_src is PllClock && cfg.pll_src is Hse)
}

/// Bring-up must enable and settle the internal oscillator.
pub open spec fn needs_hsi(cfg: ClockConfig) -> bool {
    cfg.sysclk_src is HighSpeedInternal || (cfg.sysclk_src is PllClock && cfg.pll_src is Hsi)
}

/// The two-bit mux selector value of the desired system clock source.
pub open spec fn target_sw(cfg: ClockConfig) -> u8 {
    match cfg.sysclk_src {
        SysClockSrc::HighSpeedInternal => 0b00,
        SysClockSrc::HighSpeedExternal => 0b01,
        SysClockSrc::PllClock => 0b10,
    }
}

/// A readiness line settles within the poll budget once enabled.
pub open spec fn osc_settles(line: OscLine) -> bool {
    line.responds && line.settle_reads < CLK_SETTING_TIMEOUT
}

/// The mux status comes to reflect the desired selector within the poll
/// budget (immediately so when it already reads the desired source).
pub open spec fn mux_settles(cfg: ClockConfig, regs: ClockRegisters) -> bool {
    regs.sws_code == target_sw(cfg) || (regs.mux_responds && regs.mux_settle_reads
        < CLK_SETTING_TIMEOUT)
}

/// Bring-up of `cfg` on a bank in state `regs` runs to confirmation: the
/// projection respects every ceiling, each oscillator the topology needs
/// settles, the PLL settles when it is in the path, and the mux follows.
pub open spec fn bringup_succeeds(cfg: ClockConfig, regs: ClockRegisters) -> bool {
    &&& within_ceilings(cfg)
    &&& needs_hse(cfg) ==> osc_settles(regs.hse)
    &&& needs_hsi(cfg) ==> osc_settles(regs.hsi)
    &&& uses_pll(cfg) ==> osc_settles(regs.pll)
    &&& mux_settles(cfg, regs)
}

/// The register fields a confirmed bring-up of `cfg` leaves behind.
pub open spec fn committed(cfg: ClockConfig, regs: ClockRegisters) -> bool {
    &&& regs.pll_src_hse == (cfg.pll_src is Hse)
    &&& (cfg.pll_src is Hse ==> regs.pll_hse_div2 == (cfg.pll_div is HseDiv2))
    &&& regs.pll_mul_code == pll_mul_code(cfg.pll_mul)
    &&& regs.ahb_code == ahb_code(cfg.ahb_pre)
    &&& regs.apb1_code == apb_code(cfg.apb1_pre)
    &&& regs.apb2_code == apb_code(cfg.apb2_pre)
    &&& regs.sw_code == target_sw(cfg)
    &&& regs.sws_code == target_sw(cfg)
    &&& regs.pll.enabled == uses_pll(cfg)
    &&& needs_hse(cfg) ==> regs.hse.enabled
    &&& needs_hsi(cfg) ==> regs.hsi.enabled
}

/// The system frequency that actually runs after a confirmed bring-up of
/// `cfg`: the nominal oscillator for the direct sources, and the true PLL
/// product — internal input fixed at half the oscillator — for the PLL path.
pub open spec fn realized_sys(cfg: ClockConfig) -> int {
    match cfg.sysclk_src {
        SysClockSrc::HighSpeedInternal => INT_CLK_FREQ as int,
        SysClockSrc::HighSpeedExternal => EXT_CLK_FREQ as int,
        SysClockSrc::PllClock => (if cfg.pll_src is Hsi {
            (INT_CLK_FREQ / 2) as int
        } else if cfg.pll_div is HseDiv2 {
            (EXT_CLK_FREQ / 2) as int
        } else {
            EXT_CLK_FREQ as int
        }) * pll_mul_value(cfg.pll_mul),
    }
}

/// The core-bus frequency that actually runs after a confirmed bring-up.
pub open spec fn realized_ahb(cfg: ClockConfig) -> int {
    realized_sys(cfg) / ahb_value(cfg.ahb_pre)
}

/// The peripheral-bus-1 frequency that actually runs after a confirmed
/// bring-up.
pub open spec fn realized_apb1(cfg: ClockConfig) -> int {
    realized_ahb(cfg) / apb_value(cfg.apb1_pre)
}

/// The peripheral-bus-2 frequency that actually runs after a confirmed
/// bring-up.
pub open spec fn realized_apb2(cfg: ClockConfig) -> int {
    realized_ahb(cfg) / apb_value(cfg.apb2_pre)
}

/// The behavioural model of the simulated hardware — which lines respond
/// and how fast, and the mux behaviour — is not touched by the sequencer.
pub open spec fn hardware_model_unchanged(a: ClockRegisters, b: ClockRegisters) -> bool {
    &&& b.hsi.responds == a.hsi.responds
    &&& b.hsi.settle_reads == a.hsi.settle_reads
    &&& b.hse.responds == a.hse.responds
    &&& b.hse.settle_reads == a.hse.settle_reads
    &&& b.pll.responds == a.pll.responds
    &&& b.pll.settle_reads == a.pll.settle_reads
    &&& b.mux_responds == a.mux_responds
    &&& b.mux_settle_reads == a.mux_settle_reads
}

/// Reading the committed multiplier field back yields the factor the
/// setting stands for — also across the aliased last code.
proof fn lemma_mul_code_roundtrip(m: PllMul)
    ensures
        pll_mul_of_code(pll_mul_code(m)) == pll_mul_value(m),
{
}

/// Reading the committed core-bus divider field back yields its factor.
proof fn lemma_ahb_code_roundtrip(p: AhbPre)
    ensures
        ahb_div_of_code(ahb_code(p)) == ahb_value(p),
{
}

/// Reading a committed peripheral-bus divider field back yields its factor.
proof fn lemma_apb_code_roundtrip(p: ApbPre)
    ensures
        apb_div_of_code(apb_code(p)) == apb_value(p),
{
}

impl ClockConfig {
    /// The bring-up sequencer.  The whole projected topology is validated
    /// against the ceilings before any register field is written; the stages
    /// are then committed in order — PLL configuration, prescalers,
    /// oscillator enable, PLL enable, mux switch — with every readiness
    /// line polled under the bounded budget, and the first failure is
    /// terminal.  On confirmation the returned descriptor is a copy of the
    /// requested one, and the oracle read of the final register state is
    /// exactly the realized topology.
    #[verifier::rlimit(100)]
    pub fn configure(&self, regs: &mut ClockRegisters) -> (r: Result<ClockConfig, ClockError>)
        requires
            old(regs).wf(),
        ensures
            final(regs).wf(),
            hardware_model_unchanged(*old(regs), *final(regs)),
            r is Ok <==> bringup_succeeds(*self, *old(regs)),
            r matches Ok(c) ==> c == *self,
            r is Ok ==> committed(*self, *final(regs)),
            r is Ok ==> oracle_sys(*final(regs)) == realized_sys(*self) && oracle_ahb(
                *final(regs),
            ) == realized_ahb(*self) && oracle_apb1(*final(regs)) == realized_apb1(*self)
                && oracle_apb2(*final(regs)) == realized_apb2(*self),
            !within_ceilings(*self) ==> *final(regs) == *old(regs),
            r matches Err(ClockError::SysClkOverClocking) <==> projected_sys(*self)
                > MAX_SYS_FREQ,
            r matches Err(ClockError::AhbOverClocking) <==> projected_sys(*self) <= MAX_SYS_FREQ
                && projected_ahb(*self) > MAX_AHB_FREQ,
            r matches Err(ClockError::Apb1OverClocking) <==> projected_sys(*self) <= MAX_SYS_FREQ
                && projected_ahb(*self) <= MAX_AHB_FREQ && projected_apb1(*self) > MAX_APB1_FREQ,
            r matches Err(ClockError::Apb2OverClocking) <==> projected_sys(*self) <= MAX_SYS_FREQ
                && projected_ahb(*self) <= MAX_AHB_FREQ && projected_apb1(*self) <= MAX_APB1_FREQ
                && projected_apb2(*self) > MAX_APB2_FREQ,
            r matches Err(ClockError::HseSettingFault) <==> within_ceilings(*self) && needs_hse(
                *self,
            ) && !osc_settles(old(regs).hse),
            r matches Err(ClockError::HsiSettingFault) <==> within_ceilings(*self) && needs_hsi(
                *self,
            ) && !osc_settles(old(regs).hsi),
            r matches Err(ClockError::PllSettingFault) <==> within_ceilings(*self) && uses_pll(
                *self,
            ) && (needs_hse(*self) ==> osc_settles(old(regs).hse)) && (needs_hsi(*self)
                ==> osc_settles(old(regs).hsi)) && !osc_settles(old(regs).pll),
            r matches Err(ClockError::SysClkSettingFault) <==> within_ceilings(*self) && (
            needs_hse(*self) ==> osc_settles(old(regs).hse)) && (needs_hsi(*self) ==> osc_settles(
                old(regs).hsi,
            )) && (uses_pll(*self) ==> osc_settles(old(regs).pll)) && !mux_settles(
                *self,
                *old(regs),
            ),
            r is Err && within_ceilings(*self) ==> final(regs).last_poll_reads
                == CLK_SETTING_TIMEOUT,
            (r matches Err(ClockError::HseSettingFault) || r matches Err(
                ClockError::HsiSettingFault,
            )) ==> !final(regs).pll.enabled,
            // No rollback: once validation passes, the PLL-configuration and
            // prescaler stages stay committed whatever happens afterwards.
            within_ceilings(*self) ==> final(regs).pll_src_hse == (self.pll_src is Hse)
                && final(regs).pll_mul_code == pll_mul_code(self.pll_mul)
                && final(regs).ahb_code == ahb_code(self.ahb_pre)
                && final(regs).apb1_code == apb_code(self.apb1_pre)
                && final(regs).apb2_code == apb_code(self.apb2_pre),
            // A mux fault leaves the selector written but the status field
            // still reporting the previously active source.
            r matches Err(ClockError::SysClkSettingFault) ==> final(regs).sw_code == target_sw(
                *self,
            ) && final(regs).sws_code == old(regs).sws_code,
    {
        if let Err(e) = self.validate_and_project() {
            return Err(e);
        }
        // PLL configuration: disable the PLL so its inputs can be changed
        // safely, then commit source, predivider and multiplier.
        regs.pll.enabled = false;
        if self.pll_src == PllSrc::Hse {
            regs.pll_src_hse = true;
            regs.pll_hse_div2 = self.pll_div == HsePllPre::HseDiv2;
        } else {
            regs.pll_src_hse = false;
        }
        regs.pll_mul_code = self.pll_mul.as_code();
        // Prescalers: plain writes, no hardware latency.
        regs.ahb_code = self.ahb_pre.as_code();
        regs.apb1_code = self.apb1_pre.as_code();
        regs.apb2_code = self.apb2_pre.as_code();
        // Oscillator and PLL enable, each behind a bounded readiness poll.
        let sw_target: u8 = match self.sysclk_src {
            SysClockSrc::PllClock => {
                if self.pll_src == PllSrc::Hse {
                    regs.hse.enabled = true;
                    let (ready, reads) = poll_ready(&regs.hse, CLK_SETTING_TIMEOUT);
                    regs.last_poll_reads = reads;
                    if !ready {
                        return Err(ClockError::HseSettingFault);
                    }
                } else {
                    regs.hsi.enabled = true;
                    let (ready, reads) = poll_ready(&regs.hsi, CLK_SETTING_TIMEOUT);
                    regs.last_poll_reads = reads;
                    if !ready {
                        return Err(ClockError::HsiSettingFault);
                    }
                }
                regs.pll.enabled = true;
                let (ready, reads) = poll_ready(&regs.pll, CLK_SETTING_TIMEOUT);
                regs.last_poll_reads = reads;
                if !ready {
                    return Err(ClockError::PllSettingFault);
                }
                0b10
            },
            SysClockSrc::HighSpeedInternal => {
                regs.hsi.enabled = true;
                let (ready, reads) = poll_ready(&regs.hsi, CLK_SETTING_TIMEOUT);
                regs.last_poll_reads = reads;
                if !ready {
                    return Err(ClockError::HsiSettingFault);
                }
                0b00
            },
            SysClockSrc::HighSpeedExternal => {
                regs.hse.enabled = true;
                let (ready, reads) = poll_ready(&regs.hse, CLK_SETTING_TIMEOUT);
                regs.last_poll_reads = reads;
                if !ready {
                    return Err(ClockError::HseSettingFault);
                }
                0b01
            },
        };
        // Mux switch: write the selector, then poll the status field until
        // it reads the switch back.
        regs.sw_code = sw_target;
        let (switched, reads) = poll_mux(regs, CLK_SETTING_TIMEOUT);
        regs.last_poll_reads = reads;
        if !switched {
            return Err(ClockError::SysClkSettingFault);
        }
        proof {
            lemma_mul_code_roundtrip(self.pll_mul);
            lemma_ahb_code_roundtrip(self.ahb_pre);
            lemma_apb_code_roundtrip(self.apb1_pre);
            lemma_apb_code_roundtrip(self.apb2_pre);
        }
        Ok(
            ClockConfig {
                sysclk_src: self.sysclk_src,
                pll_src: self.pll_src,
                pll_mul: self.pll_mul,
                pll_div: self.pll_div,
                ahb_pre: self.ahb_pre,
                apb1_pre: self.apb1_pre,
                apb2_pre: self.apb2_pre,
            },
        )
    }
}

/// For a topology that routes the external oscillator through the PLL, the
/// validator's projection is exactly the frequency set a confirmed bring-up
/// realizes, bus by bus — so the oracle, read after such a bring-up, returns
/// the projection with integer equality.
pub proof fn lemma_projection_realized(cfg: ClockConfig)
    requires
        cfg.sysclk_src is PllClock,
        cfg.pll_src is Hse,
    ensures
        projected_sys(cfg) == realized_sys(cfg),
        projected_ahb(cfg) == realized_ahb(cfg),
        projected_apb1(cfg) == realized_apb1(cfg),
        projected_apb2(cfg) == realized_apb2(cfg),
{
}

/// A descriptor that violates any ceiling can never reach a confirmed
/// bring-up, and one that violates exactly one ceiling is refused with
/// exactly that ceiling's error.  The premises are the bring-up contract of
/// `configure`; `r` stands for its result.
pub proof fn lemma_single_ceiling_violation(
    cfg: ClockConfig,
    regs: ClockRegisters,
    r: Result<ClockConfig, ClockError>,
)
    requires
        r is Ok <==> bringup_succeeds(cfg, regs),
        r matches Err(ClockError::SysClkOverClocking) <==> projected_sys(cfg) > MAX_SYS_FREQ,
        r matches Err(ClockError::AhbOverClocking) <==> projected_sys(cfg) <= MAX_SYS_FREQ
            && projected_ahb(cfg) > MAX_AHB_FREQ,
        r matches Err(ClockError::Apb1OverClocking) <==> projected_sys(cfg) <= MAX_SYS_FREQ
            && projected_ahb(cfg) <= MAX_AHB_FREQ && projected_apb1(cfg) > MAX_APB1_FREQ,
        r matches Err(ClockError::Apb2OverClocking) <==> projected_sys(cfg) <= MAX_SYS_FREQ
            && projected_ahb(cfg) <= MAX_AHB_FREQ && projected_apb1(cfg) <= MAX_APB1_FREQ
            && projected_apb2(cfg) > MAX_APB2_FREQ,
    ensures
        !within_ceilings(cfg) ==> r is Err,
        projected_sys(cfg) > MAX_SYS_FREQ && projected_ahb(cfg) <= MAX_AHB_FREQ && projected_apb1(
            cfg,
        ) <= MAX_APB1_FREQ && projected_apb2(cfg) <= MAX_APB2_FREQ ==> r matches Err(
            ClockError::SysClkOverClocking,
        ),
        projected_sys(cfg) <= MAX_SYS_FREQ && projected_ahb(cfg) > MAX_AHB_FREQ && projected_apb1(
            cfg,
        ) <= MAX_APB1_FREQ && projected_apb2(cfg) <= MAX_APB2_FREQ ==> r matches Err(
            ClockError::AhbOverClocking,
        ),
        projected_sys(cfg) <= MAX_SYS_FREQ && projected_ahb(cfg) <= MAX_AHB_FREQ
            && projected_apb1(cfg) > MAX_APB1_FREQ && projected_apb2(cfg) <= MAX_APB2_FREQ
            ==> r matches Err(ClockError::Apb1OverClocking),
        projected_sys(cfg) <= MAX_SYS_FREQ && projected_ahb(cfg) <= MAX_AHB_FREQ
            && projected_apb1(cfg) <= MAX_APB1_FREQ && projected_apb2(cfg) > MAX_APB2_FREQ
            ==> r matches Err(ClockError::Apb2OverClocking),
{
}

/// The oracle is a function of the register state alone: two reads with no
/// intervening bring-up see the same state and return identical speeds.
pub proof fn lemma_speeds_idempotent(regs: ClockRegisters, a: ClockSpeeds, b: ClockSpeeds)
    requires
        speeds_match(regs, a),
        speeds_match(regs, b),
    ensures
        a == b,
{
}

/// The two encodings of the sixteenfold multiplier are aliases, not two
/// values: descriptors that differ only in choosing one or the other
/// project, realize and validate identically.
pub proof fn lemma_mul16_alias(a: ClockConfig, b: ClockConfig)
    requires
        a.pll_mul is Mul16,
        b == (ClockConfig { pll_mul: PllMul::Mul16Bis, ..a }),
    ensures
        projected_sys(a) == projected_sys(b),
        projected_ahb(a) == projected_ahb(b),
        projected_apb1(a) == projected_apb1(b),
        projected_apb2(a) == projected_apb2(b),
        realized_sys(a) == realized_sys(b),
        within_ceilings(a) <==> within_ceilings(b),
{
}

} // verus!
