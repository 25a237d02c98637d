//! A register-level model of the reset and clock control block.
//!
//! The sequencer and the frequency oracle never touch memory-mapped hardware
//! directly; they operate on this bank of plain values.  Each hardware
//! readiness line carries, besides its enable bit, a small behavioural model
//! (whether the line ever stabilises, and after how many status reads), so
//! that the bounded busy-polls of the sequencer can be exercised and verified
//! against every possible hardware response, including a line that never
//! comes up.

use vstd::prelude::*;

verus! {

/// One oscillator or PLL readiness line: an enable bit plus the behaviour of
/// its hardware-asserted ready flag.
#[derive(Clone, Copy, PartialEq, Eq, Structural, Debug)]
pub struct OscLine {
    /// The on/off control bit, written by the sequencer.
    pub enabled: bool,
    /// Whether the line ever stabilises once enabled (a missing crystal or a
    /// wiring fault makes this false).
    pub responds: bool,
    /// How many status reads after enabling pass before the ready flag
    /// asserts; zero means it already reads as ready on the first poll.
    pub settle_reads: u32,
}

impl OscLine {
    /// What the ready flag reads on the `i`-th status read (counted from
    /// zero) after the line was enabled.
    pub open spec fn ready_at(self, i: int) -> bool {
        self.enabled && self.responds && i >= self.settle_reads
    }

    /// Sample the ready flag on the `i`-th read since enable.
    pub fn read_ready(&self, i: u32) -> (r: bool)
        ensures
            r == self.ready_at(i as int),
    {
        self.enabled && self.responds && i >= self.settle_reads
    }
}

/// The clock-control register bank: the control bits and divider fields the
/// sequencer commits, the mux status read-back, and the behavioural model of
/// the mux switch.
#[derive(Clone, Copy, PartialEq, Eq, Structural, Debug)]
pub struct ClockRegisters {
    /// Internal oscillator line.
    pub hsi: OscLine,
    /// External oscillator line.
    pub hse: OscLine,
    /// PLL line.
    pub pll: OscLine,
    /// PLL input selector: true selects the external oscillator.
    pub pll_src_hse: bool,
    /// PLL predivider bit: true halves the external oscillator input.
    pub pll_hse_div2: bool,
    /// Four-bit PLL multiplier field.
    pub pll_mul_code: u8,
    /// Four-bit core-bus divider field.
    pub ahb_code: u8,
    /// Three-bit peripheral-bus-1 divider field.
    pub apb1_code: u8,
    /// Three-bit peripheral-bus-2 divider field.
    pub apb2_code: u8,
    /// Two-bit system-clock mux selector, written by the sequencer.
    pub sw_code: u8,
    /// Two-bit mux status field: what is actually feeding the system clock.
    pub sws_code: u8,
    /// Whether the mux status ever reflects a newly selected source.
    pub mux_responds: bool,
    /// How many status reads pass before the mux status follows the selector.
    pub mux_settle_reads: u32,
    /// How many status reads the most recent bounded poll performed.
    pub last_poll_reads: u32,
}

impl ClockRegisters {
    /// Every multi-bit field fits its hardware width.
    pub open spec fn wf(self) -> bool {
        &&& self.pll_mul_code < 16
        &&& self.ahb_code < 16
        &&& self.apb1_code < 8
        &&& self.apb2_code < 8
        &&& self.sw_code < 4
        &&& self.sws_code < 4
    }

    /// The bank as it stands after a power-on reset: internal oscillator
    /// enabled and feeding the system clock, everything else off, all divider
    /// fields at their identity encodings, and a hardware model in which
    /// every line stabilises immediately.
    pub fn reset() -> (r: ClockRegisters)
        ensures
            r.wf(),
            r.hsi == (OscLine { enabled: true, responds: true, settle_reads: 0 }),
            r.hse == (OscLine { enabled: false, responds: true, settle_reads: 0 }),
            r.pll == (OscLine { enabled: false, responds: true, settle_reads: 0 }),
            !r.pll_src_hse,
            !r.pll_hse_div2,
            r.pll_mul_code == 0,
            r.ahb_code == 0,
            r.apb1_code == 0,
            r.apb2_code == 0,
            r.sw_code == 0,
            r.sws_code == 0,
            r.mux_responds,
            r.mux_settle_reads == 0,
            r.last_poll_reads == 0,
    {
        ClockRegisters {
            hsi: OscLine { enabled: true, responds: true, settle_reads: 0 },
            hse: OscLine { enabled: false, responds: true, settle_reads: 0 },
            pll: OscLine { enabled: false, responds: true, settle_reads: 0 },
            pll_src_hse: false,
            pll_hse_div2: false,
            pll_mul_code: 0,
            ahb_code: 0,
            apb1_code: 0,
            apb2_code: 0,
            sw_code: 0,
            sws_code: 0,
            mux_responds: true,
            mux_settle_reads: 0,
            last_poll_reads: 0,
        }
    }

    /// Runtime check of `wf`, for callers outside the verified library.
    pub fn is_well_formed(&self) -> (b: bool)
        ensures
            b == self.wf(),
    {
        self.pll_mul_code < 16 && self.ahb_code < 16 && self.apb1_code < 8 && self.apb2_code < 8
            && self.sw_code < 4 && self.sws_code < 4
    }

    /// What the mux status field reads on the `i`-th status read after the
    /// selector was last written.
    pub open spec fn sws_at(self, i: int) -> u8 {
        if self.mux_responds && i >= self.mux_settle_reads {
            self.sw_code
        } else {
            self.sws_code
        }
    }

    /// Sample the mux status field on the `i`-th read since the selector was
    /// written.
    pub fn read_sws(&self, i: u32) -> (c: u8)
        ensures
            c == self.sws_at(i as int),
    {
        if self.mux_responds && i >= self.mux_settle_reads {
            self.sw_code
        } else {
            self.sws_code
        }
    }
}

/// Busy-poll a readiness line, reading its flag at most `budget` times, and
/// report whether it asserted together with the number of reads performed.
/// A line that never asserts consumes the whole budget, not fewer reads and
/// not more.
pub fn poll_ready(line: &OscLine, budget: u32) -> (r: (bool, u32))
    ensures
        r.0 <==> (line.enabled && line.responds && line.settle_reads < budget),
        r.0 ==> r.1 == line.settle_reads + 1,
        !r.0 ==> r.1 == budget,
{
    let mut i: u32 = 0;
    while i < budget
        invariant
            i <= budget,
            line.enabled && line.responds ==> i <= line.settle_reads,
        decreases budget - i,
    {
        if line.read_ready(i) {
            return (true, i + 1);
        }
        i = i + 1;
    }
    (false, budget)
}

/// Busy-poll the mux status field until it reads back the selector, reading
/// it at most `budget` times.  On success the observed status is latched into
/// the bank; on exhaustion the bank is left untouched and the whole budget
/// was consumed.
pub fn poll_mux(regs: &mut ClockRegisters, budget: u32) -> (r: (bool, u32))
    requires
        budget >= 1,
    ensures
        r.0 <==> (old(regs).sws_code == old(regs).sw_code || (old(regs).mux_responds
            && old(regs).mux_settle_reads < budget)),
        r.0 ==> *final(regs) == (ClockRegisters { sws_code: old(regs).sw_code, ..*old(regs) }),
        !r.0 ==> *final(regs) == *old(regs),
        r.0 && old(regs).sws_code == old(regs).sw_code ==> r.1 == 1,
        r.0 && old(regs).sws_code != old(regs).sw_code ==> r.1 == old(regs).mux_settle_reads + 1,
        !r.0 ==> r.1 == budget,
{
    let mut i: u32 = 0;
    while i < budget
        invariant
            i <= budget,
            *regs == *old(regs),
            i > 0 ==> regs.sws_code != regs.sw_code,
            regs.sws_code != regs.sw_code && regs.mux_responds ==> i <= regs.mux_settle_reads,
        decreases budget - i,
    {
        let observed = regs.read_sws(i);
        if observed == regs.sw_code {
            let reads = i + 1;
            regs.sws_code = regs.sw_code;
            return (true, reads);
        }
        i = i + 1;
    }
    (false, budget)
}

} // verus!
