//! ARM clock control
//!
//! The module computes and applies the ARM clock frequency. Since the IPG
//! clock runs on the AHB_CLK_ROOT signal, this module also controls IPG clock
//! speeds.
//!
//! # Approach
//!
//! 1. Switch the AHB_CLK_ROOT to use the 24MHz clock provided by
//!    peripheral clock 2. Use the glitchless muxes.
//! 2. Compute the new ARM & IPG clock divider values, and the PLL1
//!    loop divider value. Commit those values to registers.
//! 3. Switch (back) to PLL1 as the AHB_CLK_ROOT.
//!
//! The switch is described by [`set_frequency_steps`], a list of register
//! [`Step`]s that must be carried out in order.
use vstd::prelude::*;

use crate::handle::{lemma_run_concat, lemma_run_push, Handle, Reg, Step};
use crate::register::{lemma_read_modify_other, lemma_read_modify_same, Field};

verus! {

/// The ARM clock frequency
#[derive(Clone, Copy, PartialEq, Eq, Structural, Debug)]
pub struct ARMClock(pub u32);

/// The IPG clock frequency
///
/// The IPG clock frequency runs on the AHB_CLOCK_ROOT. It's a divided
/// ARM clock.
#[derive(Clone, Copy, PartialEq, Eq, Structural, Debug)]
pub struct IPGClock(pub u32);

/// Half the crystal oscillator frequency: the PLL's output for each step of
/// its loop divider
pub const PLL_STEP_HZ: u32 = 12_000_000;

/// The lowest PLL output that the dividers are chosen to keep
pub const PLL_MIN_OUTPUT_HZ: u32 = 648_000_000;

/// The highest IPG clock frequency
pub const IPG_MAX_HZ: u32 = 150_000_000;

/// Range of the PLL loop divider
pub const PLL_DIV_SEL_MIN: u32 = 54;
pub const PLL_DIV_SEL_MAX: u32 = 108;

/// Largest ARM, AHB and IPG dividers
pub const DIV_ARM_MAX: u32 = 8;
pub const DIV_AHB_MAX: u32 = 5;
pub const DIV_IPG_MAX: u32 = 4;

/// ARM clock timings
#[derive(Clone, Copy, PartialEq, Eq, Structural, Debug)]
pub struct Timings {
    /// PLL_ARM DIV_SEL
    ///
    /// Valid range for divider value: 54-108. `Fout = Fin * div_select / 2`,
    /// where Fin is the 24MHz crystal oscillator
    pub pll_arm_div_sel: u32,
    /// Divider value for CACRR[ARM_PODF], in between the PLL
    /// and the pre peripheral mux
    ///
    /// This value is one more than the field's value.
    pub div_arm: u32,
    /// Divider for CBCDR[AHB_PODF], right before the ARM
    /// core clock input
    ///
    /// This value is one more than the field's value.
    pub div_ahb: u32,
    /// ARM clock frequency that we're using
    pub arm_hz: u32,
    /// IPG divider; one more than the field's value
    pub div_ipg: u32,
}

/// The ARM clock frequency that a PLL loop divider and two dividers give: the
/// PLL runs at the oscillator frequency times half its loop divider.
pub open spec fn spec_arm_hz(div_arm: int, div_ahb: int, pll_arm_div_sel: int) -> int {
    crate::OSCILLATOR_FREQUENCY_HZ * pll_arm_div_sel / (2 * div_arm * div_ahb)
}

/// The ARM and AHB dividers that the search reaches from `(div_arm, div_ahb)`:
/// grow the ARM divider up to 8, then the AHB divider (starting the ARM
/// divider over at 1), until `hz * div_arm * div_ahb` reaches the lowest PLL
/// output, or both are at their largest.
pub open spec fn spec_dividers(hz: u32, div_arm: u32, div_ahb: u32) -> (u32, u32)
    decreases 8 * (DIV_AHB_MAX - div_ahb) + (DIV_ARM_MAX - div_arm),
    when 1 <= div_arm <= DIV_ARM_MAX && 1 <= div_ahb <= DIV_AHB_MAX
{
    if hz * div_arm * div_ahb >= PLL_MIN_OUTPUT_HZ {
        (div_arm, div_ahb)
    } else if div_arm < DIV_ARM_MAX {
        spec_dividers(hz, (div_arm + 1) as u32, div_ahb)
    } else if div_ahb < DIV_AHB_MAX {
        spec_dividers(hz, 1, (div_ahb + 1) as u32)
    } else {
        (div_arm, div_ahb)
    }
}

/// The PLL loop divider closest to `hz * div_arm * div_ahb / 12MHz`, halves
/// rounded up, clamped to the range 54 to 108.
pub open spec fn spec_pll_div_sel(hz: u32, div_arm: u32, div_ahb: u32) -> u32 {
    let rounded = (hz * div_arm * div_ahb + PLL_STEP_HZ / 2) / PLL_STEP_HZ as int;
    if rounded > PLL_DIV_SEL_MAX {
        PLL_DIV_SEL_MAX
    } else if rounded < PLL_DIV_SEL_MIN {
        PLL_DIV_SEL_MIN
    } else {
        rounded as u32
    }
}

/// The IPG divider for an ARM clock: the smallest that keeps the IPG clock at
/// or below 150MHz, and at most 4.
pub open spec fn spec_ipg_divider(arm_hz: u32) -> u32 {
    let div = (arm_hz + IPG_MAX_HZ - 1) / IPG_MAX_HZ as int;
    if div > DIV_IPG_MAX {
        DIV_IPG_MAX
    } else {
        div as u32
    }
}

impl Timings {
    /// Every divider and the PLL loop divider lie in their hardware ranges.
    pub open spec fn wf(self) -> bool {
        &&& PLL_DIV_SEL_MIN <= self.pll_arm_div_sel <= PLL_DIV_SEL_MAX
        &&& 1 <= self.div_arm <= DIV_ARM_MAX
        &&& 1 <= self.div_ahb <= DIV_AHB_MAX
        &&& 1 <= self.div_ipg <= DIV_IPG_MAX
    }

    /// The timings that approximate the ARM clock `hz`.
    pub open spec fn spec_target(hz: u32) -> Timings {
        let (div_arm, div_ahb) = spec_dividers(hz, 1, 1);
        let pll_arm_div_sel = spec_pll_div_sel(hz, div_arm, div_ahb);
        let arm_hz = spec_arm_hz(div_arm as int, div_ahb as int, pll_arm_div_sel as int) as u32;
        Timings {
            pll_arm_div_sel,
            div_arm,
            div_ahb,
            arm_hz,
            div_ipg: spec_ipg_divider(arm_hz),
        }
    }

    pub open spec fn spec_ipg_hz(self) -> u32 {
        (self.arm_hz / self.div_ipg) as u32
    }

    /// Returns a `Timings` that approximates the target ARM clock `arm_hz`
    pub fn target(arm_hz: u32) -> (r: Timings)
        ensures
            r == Timings::spec_target(arm_hz),
            r.wf(),
            r.arm_hz == spec_arm_hz(r.div_arm as int, r.div_ahb as int, r.pll_arm_div_sel as int),
            r.div_ipg == spec_ipg_divider(r.arm_hz),
    {
        proof {
            lemma_target_wf(arm_hz);
        }
        let mut div_arm: u32 = 1;
        let mut div_ahb: u32 = 1;
        proof {
            lemma_product_bound(arm_hz, div_arm, div_ahb);
        }
        while (arm_hz as u64) * (div_arm as u64) * (div_ahb as u64) < PLL_MIN_OUTPUT_HZ as u64 && (
        div_arm < DIV_ARM_MAX || div_ahb < DIV_AHB_MAX)
            invariant
                1 <= div_arm <= DIV_ARM_MAX,
                1 <= div_ahb <= DIV_AHB_MAX,
                spec_dividers(arm_hz, div_arm, div_ahb) == spec_dividers(arm_hz, 1, 1),
                0 <= arm_hz * div_arm <= arm_hz * div_arm * div_ahb <= 0xffff_ffff * 40,
            decreases 8 * (DIV_AHB_MAX - div_ahb) + (DIV_ARM_MAX - div_arm),
        {
            if div_arm < DIV_ARM_MAX {
                div_arm = div_arm + 1;
            } else {
                div_ahb = div_ahb + 1;
                div_arm = 1;
            }
            proof {
                lemma_product_bound(arm_hz, div_arm, div_ahb);
            }
        }
        let product: u64 = (arm_hz as u64) * (div_arm as u64) * (div_ahb as u64);
        assert(spec_dividers(arm_hz, div_arm, div_ahb) == (div_arm, div_ahb));

        let rounded: u64 = (product + (PLL_STEP_HZ / 2) as u64) / PLL_STEP_HZ as u64;
        let pll_arm_div_sel: u32 = if rounded > PLL_DIV_SEL_MAX as u64 {
            PLL_DIV_SEL_MAX
        } else if rounded < PLL_DIV_SEL_MIN as u64 {
            PLL_DIV_SEL_MIN
        } else {
            rounded as u32
        };
        assert(pll_arm_div_sel == spec_pll_div_sel(arm_hz, div_arm, div_ahb));
        let arm_hz = compute_arm_hz(div_arm, div_ahb, pll_arm_div_sel);
        proof {
            lemma_arm_hz_bounds(div_arm, div_ahb, pll_arm_div_sel);
        }
        let div_ipg: u32 = (arm_hz + (IPG_MAX_HZ - 1)) / IPG_MAX_HZ;
        let div_ipg: u32 = if div_ipg > DIV_IPG_MAX {
            DIV_IPG_MAX
        } else {
            div_ipg
        };
        Timings { pll_arm_div_sel, div_arm, div_ahb, arm_hz, div_ipg }
    }

    /// Returns the IPG clock frequency described by these timings
    pub fn ipg_hz(&self) -> (r: u32)
        requires
            self.div_ipg >= 1,
        ensures
            r == self.spec_ipg_hz(),
    {
        self.arm_hz / self.div_ipg
    }
}

/// The dividers that the search reaches stay in their ranges.
proof fn lemma_dividers_range(hz: u32, div_arm: u32, div_ahb: u32)
    requires
        1 <= div_arm <= DIV_ARM_MAX,
        1 <= div_ahb <= DIV_AHB_MAX,
    ensures
        1 <= spec_dividers(hz, div_arm, div_ahb).0 <= DIV_ARM_MAX,
        1 <= spec_dividers(hz, div_arm, div_ahb).1 <= DIV_AHB_MAX,
    decreases 8 * (DIV_AHB_MAX - div_ahb) + (DIV_ARM_MAX - div_arm),
{
    if hz * div_arm * div_ahb >= PLL_MIN_OUTPUT_HZ {
    } else if div_arm < DIV_ARM_MAX {
        lemma_dividers_range(hz, (div_arm + 1) as u32, div_ahb);
    } else if div_ahb < DIV_AHB_MAX {
        lemma_dividers_range(hz, 1, (div_ahb + 1) as u32);
    }
}

/// The search stops at dividers that bring `hz` up to the lowest PLL output,
/// or at the largest dividers when none do.
pub proof fn lemma_dividers_reach(hz: u32, div_arm: u32, div_ahb: u32)
    requires
        1 <= div_arm <= DIV_ARM_MAX,
        1 <= div_ahb <= DIV_AHB_MAX,
    ensures
        ({
            let (a, b) = spec_dividers(hz, div_arm, div_ahb);
            hz * a * b >= PLL_MIN_OUTPUT_HZ || (a == DIV_ARM_MAX && b == DIV_AHB_MAX)
        }),
    decreases 8 * (DIV_AHB_MAX - div_ahb) + (DIV_ARM_MAX - div_arm),
{
    if hz * div_arm * div_ahb >= PLL_MIN_OUTPUT_HZ {
    } else if div_arm < DIV_ARM_MAX {
        lemma_dividers_reach(hz, (div_arm + 1) as u32, div_ahb);
    } else if div_ahb < DIV_AHB_MAX {
        lemma_dividers_reach(hz, 1, (div_ahb + 1) as u32);
    }
}

/// For every target, the PLL loop divider lies in 54..=108, the ARM divider in
/// 1..=8, the AHB divider in 1..=5 and the IPG divider in 1..=4.
pub proof fn lemma_target_wf(hz: u32)
    ensures
        Timings::spec_target(hz).wf(),
{
    lemma_dividers_range(hz, 1, 1);
    let t = Timings::spec_target(hz);
    lemma_arm_hz_bounds(t.div_arm, t.div_ahb, t.pll_arm_div_sel);
}

/// The timings depend on the target alone: equal targets give equal timings.
pub proof fn lemma_target_deterministic(a: u32, b: u32)
    requires
        a == b,
    ensures
        Timings::spec_target(a) == Timings::spec_target(b),
{
}

/// The IPG divider is the smallest that keeps the IPG clock at or below
/// 150MHz, as long as that is at most 4.
pub proof fn lemma_ipg_divider_smallest(arm_hz: u32)
    requires
        1 <= arm_hz <= DIV_IPG_MAX * IPG_MAX_HZ,
    ensures
        1 <= spec_ipg_divider(arm_hz) <= DIV_IPG_MAX,
        arm_hz <= spec_ipg_divider(arm_hz) * IPG_MAX_HZ,
        spec_ipg_divider(arm_hz) == 1 || (spec_ipg_divider(arm_hz) - 1) * IPG_MAX_HZ < arm_hz,
{
    let n = arm_hz + IPG_MAX_HZ - 1;
    let d = n / IPG_MAX_HZ as int;
    vstd::arithmetic::div_mod::lemma_fundamental_div_mod(n, IPG_MAX_HZ as int);
    assert(1 <= d <= 4 && arm_hz <= d * 150_000_000 && (d == 1 || (d - 1) * 150_000_000 < arm_hz))
        by (nonlinear_arith)
        requires
            n == arm_hz + 149_999_999,
            n == 150_000_000 * d + n % 150_000_000,
            0 <= n % 150_000_000 < 150_000_000,
            1 <= arm_hz <= 600_000_000,
    ;
}

/// Just above a multiple of 150MHz the IPG divider grows by exactly one: at
/// `k * 150MHz` it is `k`, and at one hertz more it is `k + 1`.
pub proof fn lemma_ipg_divider_step(k: u32)
    requires
        1 <= k < DIV_IPG_MAX,
    ensures
        spec_ipg_divider((k * IPG_MAX_HZ) as u32) == k,
        spec_ipg_divider((k * IPG_MAX_HZ + 1) as u32) == k + 1,
{
    let a = k * IPG_MAX_HZ;
    lemma_ipg_divider_smallest(a as u32);
    lemma_ipg_divider_smallest((a + 1) as u32);
    assert(spec_ipg_divider(a as u32) == k) by (nonlinear_arith)
        requires
            1 <= spec_ipg_divider(a as u32) <= 4,
            a <= spec_ipg_divider(a as u32) * 150_000_000,
            spec_ipg_divider(a as u32) == 1 || (spec_ipg_divider(a as u32) - 1) * 150_000_000 < a,
            a == k * 150_000_000,
            1 <= k <= 3,
    ;
    assert(spec_ipg_divider((a + 1) as u32) == k + 1) by (nonlinear_arith)
        requires
            1 <= spec_ipg_divider((a + 1) as u32) <= 4,
            a + 1 <= spec_ipg_divider((a + 1) as u32) * 150_000_000,
            spec_ipg_divider((a + 1) as u32) == 1 || (spec_ipg_divider((a + 1) as u32) - 1)
                * 150_000_000 < a + 1,
            a == k * 150_000_000,
            1 <= k <= 3,
    ;
}

proof fn lemma_product_bound(hz: u32, div_arm: u32, div_ahb: u32)
    requires
        1 <= div_arm <= DIV_ARM_MAX,
        1 <= div_ahb <= DIV_AHB_MAX,
    ensures
        0 <= hz * div_arm <= hz * div_arm * div_ahb <= 0xffff_ffff * 40,
{
    assert(0 <= hz * div_arm <= hz * div_arm * div_ahb <= 0xffff_ffff * 40) by (nonlinear_arith)
        requires
            1 <= div_arm <= 8,
            1 <= div_ahb <= 5,
            hz <= 0xffff_ffff,
    ;
}

proof fn lemma_arm_hz_bounds(div_arm: u32, div_ahb: u32, pll_arm_div_sel: u32)
    requires
        1 <= div_arm <= DIV_ARM_MAX,
        1 <= div_ahb <= DIV_AHB_MAX,
        PLL_DIV_SEL_MIN <= pll_arm_div_sel <= PLL_DIV_SEL_MAX,
    ensures
        1 <= spec_arm_hz(div_arm as int, div_ahb as int, pll_arm_div_sel as int) <= PLL_DIV_SEL_MAX
            * PLL_STEP_HZ,
{
    let d = div_arm * div_ahb;
    let x = pll_arm_div_sel * PLL_STEP_HZ;
    lemma_arm_hz_steps(div_arm, div_ahb, pll_arm_div_sel);
    assert(1 <= d <= 40) by (nonlinear_arith)
        requires
            1 <= div_arm <= 8,
            1 <= div_ahb <= 5,
            d == div_arm * div_ahb,
    ;
    assert(x / d <= x) by (nonlinear_arith)
        requires
            1 <= d,
            0 <= x,
    ;
    assert(x / d >= x / 40) by {
        vstd::arithmetic::div_mod::lemma_div_is_ordered_by_denominator(x, d, 40);
    }
}

/// The ARM clock frequency is the PLL step frequency times the loop divider,
/// divided by each divider in turn.
proof fn lemma_arm_hz_steps(div_arm: u32, div_ahb: u32, pll_arm_div_sel: u32)
    requires
        div_arm >= 1,
        div_ahb >= 1,
    ensures
        spec_arm_hz(div_arm as int, div_ahb as int, pll_arm_div_sel as int) == pll_arm_div_sel
            * PLL_STEP_HZ / div_arm as int / div_ahb as int,
        spec_arm_hz(div_arm as int, div_ahb as int, pll_arm_div_sel as int) == pll_arm_div_sel
            * PLL_STEP_HZ / (div_arm * div_ahb),
{
    let x = pll_arm_div_sel * PLL_STEP_HZ;
    let d = div_arm * div_ahb;
    assert(d >= 1) by (nonlinear_arith)
        requires
            div_arm >= 1,
            div_ahb >= 1,
            d == div_arm * div_ahb,
    ;
    assert(crate::OSCILLATOR_FREQUENCY_HZ * pll_arm_div_sel == 2 * x);
    assert(2 * div_arm * div_ahb == 2 * d) by (nonlinear_arith)
        requires
            d == div_arm * div_ahb,
    ;
    vstd::arithmetic::div_mod::lemma_div_denominator(2 * x, 2, d);
    vstd::arithmetic::div_mod::lemma_div_by_multiple(x, 2);
    assert(2 * x / 2 == x) by {
        assert(x * 2 == 2 * x);
    }
    vstd::arithmetic::div_mod::lemma_div_denominator(x, div_arm as int, div_ahb as int);
}

/// Returns the ARM clock frequency for a PLL loop divider and two dividers
pub fn compute_arm_hz(div_arm: u32, div_ahb: u32, pll_arm_div_sel: u32) -> (r: u32)
    requires
        div_arm >= 1,
        div_ahb >= 1,
        pll_arm_div_sel * PLL_STEP_HZ <= u32::MAX,
    ensures
        r == spec_arm_hz(div_arm as int, div_ahb as int, pll_arm_div_sel as int),
{
    proof {
        lemma_arm_hz_steps(div_arm, div_ahb, pll_arm_div_sel);
    }
    pll_arm_div_sel * PLL_STEP_HZ / div_arm / div_ahb
}


/// CBCDR[PERIPH_CLK2_PODF]
pub open spec fn periph_clk2_podf() -> Field {
    Field::spec_new(27, 0b111)
}

/// CBCMR[PERIPH_CLK2_SEL]
pub open spec fn periph_clk2_sel() -> Field {
    Field::spec_new(12, 0b11)
}

/// CBCDR[PERIPH_CLK_SEL]
pub open spec fn periph_clk_sel() -> Field {
    Field::spec_new(25, 1)
}

/// CBCMR[PRE_PERIPH_CLK_SEL]
pub open spec fn pre_periph_clk_sel() -> Field {
    Field::spec_new(18, 0x3)
}

/// CCM_ANALOG_PLL_ARM[DIV_SELECT]
pub open spec fn div_sel() -> Field {
    Field::spec_new(0, 0x7f)
}

/// CCM_ANALOG_PLL_ARM[POWERDOWN]
pub open spec fn powerdown() -> Field {
    Field::spec_new(12, 1)
}

/// CCM_ANALOG_PLL_ARM[ENABLE]
pub open spec fn enable() -> Field {
    Field::spec_new(13, 1)
}

/// CACRR[ARM_PODF]
pub open spec fn arm_podf() -> Field {
    Field::spec_new(0, 0x7)
}

/// CBCDR[AHB_PODF]
pub open spec fn ahb_podf() -> Field {
    Field::spec_new(10, 0x7)
}

/// CBCDR[IPG_PODF]
pub open spec fn ipg_podf() -> Field {
    Field::spec_new(8, 0x3)
}

/// Moves AHB_CLK_ROOT to the crystal oscillator through peripheral clock 2.
pub open spec fn spec_to_oscillator() -> Seq<Step> {
    Seq::empty().push(Step::Modify(Reg::Cbcdr, periph_clk2_podf(), 0)).push(
        Step::Modify(Reg::Cbcmr, periph_clk2_sel(), 1),
    ).push(Step::WaitHandshake).push(Step::Modify(Reg::Cbcdr, periph_clk_sel(), 1)).push(
        Step::WaitHandshake,
    )
}

/// Moves AHB_CLK_ROOT back to PLL1 through the pre-peripheral clock.
pub open spec fn spec_to_pll() -> Seq<Step> {
    Seq::empty().push(Step::Modify(Reg::Cbcmr, pre_periph_clk_sel(), 3)).push(
        Step::Modify(Reg::Cbcdr, periph_clk_sel(), 0),
    ).push(Step::WaitHandshake)
}

/// Powers the ARM PLL down, sets its loop divider, enables it and waits for
/// lock.
pub open spec fn spec_restart_pll_arm(div_select: u32) -> Seq<Step> {
    Seq::empty().push(Step::WriteZero(Reg::PllArm, powerdown(), 1)).push(
        Step::WriteZero(Reg::PllArm, div_sel(), div_select),
    ).push(Step::Modify(Reg::PllArm, enable(), 1)).push(Step::WaitPllLock)
}

/// Writes the ARM, AHB and IPG dividers, each one less than its divider.
pub open spec fn spec_set_timings(t: Timings) -> Seq<Step> {
    Seq::empty().push(Step::Modify(Reg::Cacrr, arm_podf(), t.div_arm.saturating_sub(1))).push(
        Step::WaitHandshake,
    ).push(Step::Modify(Reg::Cbcdr, ahb_podf(), t.div_ahb.saturating_sub(1))).push(
        Step::WaitHandshake,
    ).push(Step::Modify(Reg::Cbcdr, ipg_podf(), t.div_ipg.saturating_sub(1)))
}

/// The whole switch to the ARM clock `hz`, in the order that it must run.
pub open spec fn spec_set_frequency_steps(hz: u32) -> Seq<Step> {
    let t = Timings::spec_target(hz);
    spec_to_oscillator() + (spec_restart_pll_arm(t.pll_arm_div_sel) + spec_set_timings(t))
        + spec_to_pll()
}

/// The timings that the ARM clock registers describe.
pub open spec fn spec_read_timings(cacrr: u32, cbcdr: u32, pll_arm: u32) -> Timings {
    let div_arm = (arm_podf().spec_read(cacrr) + 1) as u32;
    let div_ahb = (ahb_podf().spec_read(cbcdr) + 1) as u32;
    let pll_arm_div_sel = div_sel().spec_read(pll_arm);
    Timings {
        div_arm,
        div_ahb,
        pll_arm_div_sel,
        arm_hz: spec_arm_hz(div_arm as int, div_ahb as int, pll_arm_div_sel as int) as u32,
        div_ipg: (ipg_podf().spec_read(cbcdr) + 1) as u32,
    }
}

/// The ARM and IPG clock frequencies that the registers of `h` describe.
pub open spec fn spec_frequency(h: Handle) -> (ARMClock, IPGClock) {
    let t = spec_read_timings(h.cacrr, h.cbcdr, h.pll_arm);
    (ARMClock(t.arm_hz), IPGClock(t.spec_ipg_hz()))
}

/// Runs `inner` while AHB_CLK_ROOT is powered by the 24MHz crystal
/// oscillator: the result switches to the oscillator, runs `inner`, and
/// switches back to the PRE_PERIPH_CLK source.
pub fn on_ahb_clk_oscillator(inner: Vec<Step>) -> (r: Vec<Step>)
    ensures
        r@ == spec_to_oscillator() + inner@ + spec_to_pll(),
{
    let mut steps: Vec<Step> = Vec::new();
    // Divide by 1
    steps.push(Step::Modify(Reg::Cbcdr, Field::new(27, 0b111), 0));
    // Derive from oscillator
    steps.push(Step::Modify(Reg::Cbcmr, Field::new(12, 0b11), 1));
    steps.push(Step::WaitHandshake);
    // Switch main peripheral clock to PERIPH_CLK2
    steps.push(Step::Modify(Reg::Cbcdr, Field::new(25, 1), 1));
    steps.push(Step::WaitHandshake);
    let ghost inner_steps = inner@;
    let mut inner = inner;
    steps.append(&mut inner);

    // Switch back to PRE_PERIPH_CLK; select PLL1
    steps.push(Step::Modify(Reg::Cbcmr, Field::new(18, 0x3), 3));
    steps.push(Step::Modify(Reg::Cbcdr, Field::new(25, 1), 0));
    steps.push(Step::WaitHandshake);
    assert(steps@ =~= spec_to_oscillator() + inner_steps + spec_to_pll());
    steps
}

/// Restart the ARM PLL with a new `div_select` value
pub fn restart_pll_arm(div_select: u32) -> (r: Vec<Step>)
    ensures
        r@ == spec_restart_pll_arm(div_select),
{
    let mut steps: Vec<Step> = Vec::new();
    // Clear all bits except POWERDOWN
    steps.push(Step::WriteZero(Reg::PllArm, Field::new(12, 1), 1));
    // Clear POWERDOWN write above
    steps.push(Step::WriteZero(Reg::PllArm, Field::new(0, 0x7f), div_select));
    // Enable the PLL
    steps.push(Step::Modify(Reg::PllArm, Field::new(13, 1), 1));
    steps.push(Step::WaitPllLock);
    steps
}

/// Write the ARM timings throughout the CCM
pub fn set_timings(timings: &Timings) -> (r: Vec<Step>)
    ensures
        r@ == spec_set_timings(*timings),
{
    let mut steps: Vec<Step> = Vec::new();
    steps.push(Step::Modify(Reg::Cacrr, Field::new(0, 0x7), timings.div_arm.saturating_sub(1)));
    steps.push(Step::WaitHandshake);
    steps.push(Step::Modify(Reg::Cbcdr, Field::new(10, 0x7), timings.div_ahb.saturating_sub(1)));
    steps.push(Step::WaitHandshake);
    steps.push(Step::Modify(Reg::Cbcdr, Field::new(8, 0x3), timings.div_ipg.saturating_sub(1)));
    steps
}

/// Returns the register steps that set the ARM clock frequency to approximate
/// `hz`, in the order in which they must be carried out.
pub fn set_frequency_steps(hz: u32) -> (r: Vec<Step>)
    ensures
        r@ == spec_set_frequency_steps(hz),
        crate::handle::steps_wf(r@),
{
    let timings = Timings::target(hz);
    let mut inner = restart_pll_arm(timings.pll_arm_div_sel);
    let mut rest = set_timings(&timings);
    inner.append(&mut rest);
    let r = on_ahb_clk_oscillator(inner);
    proof {
        let s = r@;
        assert forall|i: int| 0 <= i < s.len() implies (#[trigger] s[i]).wf() by {
            assert(s[i].wf());
        }
    }
    r
}

/// Returns the ARM timings read from the ARM clock registers
///
/// Assumes that the ARM clock was configured using this module's API.
/// If the ARM clock is not running on PLL1, these timings may be meaningless.
pub fn read_timings(cacrr: &u32, cbcdr: &u32, pll_arm: &u32) -> (r: Timings)
    ensures
        r == spec_read_timings(*cacrr, *cbcdr, *pll_arm),
        r.div_ipg >= 1,
{
    let (a, b, p) = (*cacrr, *cbcdr, *pll_arm);
    assert((a & (7u32 << 0u32)) >> 0u32 <= 7 && (b & (7u32 << 10u32)) >> 10u32 <= 7 && (b & (3u32
        << 8u32)) >> 8u32 <= 3 && (p & (0x7fu32 << 0u32)) >> 0u32 <= 0x7f) by (bit_vector);
    let div_arm = Field::new(0, 0x7).read(cacrr) + 1;
    let div_ahb = Field::new(10, 0x7).read(cbcdr) + 1;
    let div_ipg = Field::new(8, 0x3).read(cbcdr) + 1;
    let pll_arm_div_sel = Field::new(0, 0x7f).read(pll_arm);
    let arm_hz = compute_arm_hz(div_arm, div_ahb, pll_arm_div_sel);
    Timings { div_arm, div_ahb, pll_arm_div_sel, arm_hz, div_ipg }
}

/// Returns the ARM timings that the registers of `handle` describe
pub fn timings(handle: &Handle) -> (r: Timings)
    ensures
        r == spec_read_timings(handle.cacrr, handle.cbcdr, handle.pll_arm),
        r.div_ipg >= 1,
{
    read_timings(&handle.cacrr, &handle.cbcdr, &handle.pll_arm)
}

/// Returns the ARM and IPG clock frequencies
///
/// The function assumes that the ARM clock runs on PLL1.
/// The clock values may be incorrect until after the first call to
/// [`set_frequency`].
pub fn frequency(handle: &Handle) -> (r: (ARMClock, IPGClock))
    ensures
        r == spec_frequency(*handle),
{
    let timings = timings(handle);
    (ARMClock(timings.arm_hz), IPGClock(timings.ipg_hz()))
}

/// Set the ARM clock frequency, returning the ARM and IPG clock speeds
///
/// The register space is carried through the steps of
/// [`set_frequency_steps`]. The frequencies returned are those that the
/// registers then describe, which are those of the target timings.
pub fn set_frequency(handle: &mut Handle, hz: u32) -> (r: (ARMClock, IPGClock))
    ensures
        *final(handle) == old(handle).spec_run(spec_set_frequency_steps(hz)),
        final(handle).ccgr == old(handle).ccgr,
        r == spec_frequency(*final(handle)),
        r == (ARMClock(Timings::spec_target(hz).arm_hz), IPGClock(
            Timings::spec_target(hz).spec_ipg_hz(),
        )),
{
    let steps = set_frequency_steps(hz);
    handle.run(steps.as_slice());
    proof {
        lemma_set_frequency_then_read(*old(handle), hz);
        crate::handle::lemma_run_keeps_gates(*old(handle), spec_set_frequency_steps(hz));
    }
    frequency(handle)
}

/// After the switch to an ARM clock, the ARM clock registers describe exactly
/// the target timings, whatever the registers held before; so reading the
/// frequencies back gives the target's ARM and IPG frequencies, which are those
/// that [`set_frequency`] returns.
pub proof fn lemma_set_frequency_then_read(h: Handle, hz: u32)
    ensures
        ({
            let after = h.spec_run(spec_set_frequency_steps(hz));
            spec_read_timings(after.cacrr, after.cbcdr, after.pll_arm) == Timings::spec_target(hz)
        }),
        spec_frequency(h.spec_run(spec_set_frequency_steps(hz))) == (
        ARMClock(Timings::spec_target(hz).arm_hz),
        IPGClock(Timings::spec_target(hz).spec_ipg_hz()),
        ),
{
    let t = Timings::spec_target(hz);
    lemma_target_wf(hz);
    let s1 = spec_to_oscillator();
    let s2 = spec_restart_pll_arm(t.pll_arm_div_sel);
    let s3 = spec_set_timings(t);
    let s4 = spec_to_pll();
    lemma_run_concat(h, s1 + (s2 + s3), s4);
    lemma_run_concat(h, s1, s2 + s3);
    let h1 = h.spec_run(s1);
    lemma_run_concat(h1, s2, s3);
    let h2 = h1.spec_run(s2);
    let h3 = h2.spec_run(s3);
    let h4 = h3.spec_run(s4);
    lemma_run_five(h, s1);
    lemma_run_four(h1, s2);
    lemma_run_five(h2, s3);
    lemma_run_three(h3, s4);

    // Facts about the fields' constant masks
    assert((7u32 << 0u32) >> 0u32 == 7 && (0x7fu32 << 0u32) >> 0u32 == 0x7f && (7u32 << 10u32)
        >> 10u32 == 7 && (3u32 << 8u32) >> 8u32 == 3 && (1u32 << 25u32) & (7u32 << 10u32) == 0
        && (1u32 << 25u32) & (3u32 << 8u32) == 0 && (3u32 << 8u32) & (7u32 << 10u32) == 0 && (1u32
        << 13u32) & (0x7fu32 << 0u32) == 0) by (bit_vector);
    let (a, b, c, p) = ((t.div_arm - 1) as u32, (t.div_ahb - 1) as u32, (t.div_ipg - 1) as u32, t.pll_arm_div_sel);
    assert(a & 7 == a && b & 7 == b && c & 3 == c && p & 0x7f == p) by (bit_vector)
        requires
            a <= 7,
            b <= 4,
            c <= 3,
            p <= 108,
    ;

    // CACRR: the ARM divider
    lemma_read_modify_same(h.cacrr, 0, 7, a);

    // PLL_ARM: the loop divider, then ENABLE
    lemma_read_modify_same(0, 0, 0x7f, p);
    lemma_read_modify_other(div_sel().spec_write_zero(p), enable(), div_sel(), 1);

    // CBCDR: AHB, then IPG, then PERIPH_CLK_SEL
    let c2 = h1.cbcdr;
    let c3 = ahb_podf().spec_modify(c2, b);
    let c4 = ipg_podf().spec_modify(c3, c);
    lemma_read_modify_same(c2, 10, 7, b);
    lemma_read_modify_other(c3, ipg_podf(), ahb_podf(), c);
    lemma_read_modify_other(c4, periph_clk_sel(), ahb_podf(), 0);
    lemma_read_modify_same(c3, 8, 3, c);
    lemma_read_modify_other(c4, periph_clk_sel(), ipg_podf(), 0);
}

proof fn lemma_run_three(h: Handle, s: Seq<Step>)
    requires
        s.len() == 3,
    ensures
        h.spec_run(s) == h.spec_step(s[0]).spec_step(s[1]).spec_step(s[2]),
{
    let e = Seq::<Step>::empty();
    assert(s =~= e.push(s[0]).push(s[1]).push(s[2]));
    assert(h.spec_run(e) == h);
    lemma_run_push(h, e, s[0]);
    lemma_run_push(h, e.push(s[0]), s[1]);
    lemma_run_push(h, e.push(s[0]).push(s[1]), s[2]);
}

proof fn lemma_run_four(h: Handle, s: Seq<Step>)
    requires
        s.len() == 4,
    ensures
        h.spec_run(s) == h.spec_step(s[0]).spec_step(s[1]).spec_step(s[2]).spec_step(s[3]),
{
    let p = s.drop_last();
    lemma_run_three(h, p);
    assert(s =~= p.push(s[3]));
    lemma_run_push(h, p, s[3]);
}

proof fn lemma_run_five(h: Handle, s: Seq<Step>)
    requires
        s.len() == 5,
    ensures
        h.spec_run(s) == h.spec_step(s[0]).spec_step(s[1]).spec_step(s[2]).spec_step(
            s[3],
        ).spec_step(s[4]),
{
    let p = s.drop_last();
    lemma_run_four(h, p);
    assert(s =~= p.push(s[4]));
    lemma_run_push(h, p, s[4]);
}

} // verus!
