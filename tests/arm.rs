use imxrt_ccm::arm::{
    compute_arm_hz, frequency, read_timings, set_frequency, set_frequency_steps, ARMClock,
    IPGClock, Timings,
};
use imxrt_ccm::handle::{Handle, Reg, Step};
use imxrt_ccm::register::Field;

#[test]
fn imxrt1060_target_freq() {
    let timings = Timings::target(600_000_000);
    assert_eq!(timings.arm_hz, 600_000_000);
    assert_eq!(timings.ipg_hz(), 150_000_000);
    assert!(54 <= timings.pll_arm_div_sel && timings.pll_arm_div_sel <= 108);

    let timings = Timings::target(600_000_100);
    assert_eq!(timings.arm_hz, 600_000_000);
}

#[test]
fn imxrt1060_frequency() {
    let expected = Timings::target(600_000_000);
    let caccr = expected.div_arm.saturating_sub(1);
    let cbcdr =
        expected.div_ahb.saturating_sub(1) << 10 | expected.div_ipg.saturating_sub(1) << 8;
    let pll_arm = expected.pll_arm_div_sel;

    let actual = read_timings(&caccr, &cbcdr, &pll_arm);
    assert_eq!(actual, expected);
}

#[test]
fn target_is_deterministic() {
    for hz in [0, 1, 24_000_000, 396_000_000, 600_000_000, 600_000_100, u32::MAX] {
        assert_eq!(Timings::target(hz), Timings::target(hz));
    }
}

#[test]
fn target_stays_in_range() {
    let targets = [
        0,
        1,
        16_200_000,
        100_000_000,
        150_000_000,
        528_000_000,
        647_999_999,
        648_000_000,
        1_000_000_000,
        1_296_000_000,
        4_000_000_000,
        u32::MAX,
    ];
    for hz in targets {
        let t = Timings::target(hz);
        assert!((54..=108).contains(&t.pll_arm_div_sel), "{}", hz);
        assert!((1..=8).contains(&t.div_arm), "{}", hz);
        assert!((1..=5).contains(&t.div_ahb), "{}", hz);
        assert!((1..=4).contains(&t.div_ipg), "{}", hz);
    }
}

#[test]
fn target_arm_hz_follows_the_formula() {
    for hz in [0, 1, 33_000_000, 150_000_000, 600_000_000, 999_999_999, u32::MAX] {
        let t = Timings::target(hz);
        assert_eq!(
            t.arm_hz,
            24_000_000 * t.pll_arm_div_sel / (2 * t.div_arm * t.div_ahb)
        );
        assert_eq!(t.ipg_hz(), t.arm_hz / t.div_ipg);
    }
}

#[test]
fn target_zero_gives_the_slowest_clock() {
    let t = Timings::target(0);
    assert_eq!((t.div_arm, t.div_ahb), (8, 5));
    assert_eq!(t.pll_arm_div_sel, 54);
    assert_eq!(t.arm_hz, 16_200_000);
    assert_eq!(t.div_ipg, 1);
}

#[test]
fn target_max_gives_the_fastest_clock() {
    let t = Timings::target(u32::MAX);
    assert_eq!((t.div_arm, t.div_ahb), (1, 1));
    assert_eq!(t.pll_arm_div_sel, 108);
    assert_eq!(t.arm_hz, 1_296_000_000);
    assert_eq!(t.div_ipg, 4);
    assert_eq!(t.ipg_hz(), 324_000_000);
}

#[test]
fn target_searches_dividers_in_order() {
    // 300MHz reaches 648MHz with an ARM divider of 3
    let t = Timings::target(300_000_000);
    assert_eq!((t.div_arm, t.div_ahb), (3, 1));
    assert_eq!(t.pll_arm_div_sel, 75);
    assert_eq!(t.arm_hz, 300_000_000);
    // 20MHz needs more than 8 from the ARM divider: 20MHz * 8 * 5 = 800MHz
    let t = Timings::target(20_000_000);
    assert_eq!((t.div_arm, t.div_ahb), (7, 5));
    assert_eq!(t.pll_arm_div_sel, 58);
    assert_eq!(t.arm_hz, 19_885_714);
}

#[test]
fn ipg_divider_steps_above_a_multiple_of_150mhz() {
    let at = Timings::target(300_000_000);
    assert_eq!(at.arm_hz, 300_000_000);
    assert_eq!(at.div_ipg, 2);
    assert_eq!(at.ipg_hz(), 150_000_000);

    let above = Timings::target(304_000_000);
    assert_eq!(above.arm_hz, 304_000_000);
    assert_eq!(above.div_ipg, 3);
    assert_eq!(above.ipg_hz(), 101_333_333);

    let t = Timings::target(450_000_000);
    assert_eq!(t.arm_hz, 450_000_000);
    assert_eq!(t.div_ipg, 3);
    let t = Timings::target(456_000_000);
    assert_eq!(t.arm_hz, 456_000_000);
    assert_eq!(t.div_ipg, 4);
}

#[test]
fn compute_arm_hz_divides_in_turn() {
    assert_eq!(compute_arm_hz(1, 1, 100), 1_200_000_000);
    assert_eq!(compute_arm_hz(3, 2, 54), 108_000_000);
    assert_eq!(compute_arm_hz(7, 5, 58), 19_885_714);
}

#[test]
fn set_frequency_then_frequency_round_trip() {
    for hz in [0, 24_000_000, 150_000_000, 396_000_000, 600_000_000, 600_000_100, u32::MAX] {
        let mut handle = Handle::new();
        handle.cbcdr = 0xFFFF_FFFF;
        handle.cacrr = 0xFFFF_FFFF;
        handle.pll_arm = 0xFFFF_FFFF;
        let set = set_frequency(&mut handle, hz);
        assert_eq!(frequency(&handle), set);
        let t = Timings::target(hz);
        assert_eq!(set, (ARMClock(t.arm_hz), IPGClock(t.ipg_hz())));
    }
}

#[test]
fn set_frequency_600mhz_reports_600_and_150() {
    let mut handle = Handle::new();
    let (arm, ipg) = set_frequency(&mut handle, 600_000_000);
    assert_eq!(arm, ARMClock(600_000_000));
    assert_eq!(ipg, IPGClock(150_000_000));
    // The switch ends on PLL1: PERIPH_CLK_SEL clear, PRE_PERIPH_CLK_SEL = 3
    assert_eq!(handle.cbcdr & (1 << 25), 0);
    assert_eq!((handle.cbcmr >> 18) & 3, 3);
    // The PLL is enabled and not powered down
    assert_eq!(handle.pll_arm, (1 << 13) | 100);
}

#[test]
fn set_frequency_steps_keep_the_switch_order() {
    let steps = set_frequency_steps(600_000_000);
    let t = Timings::target(600_000_000);
    let expected = vec![
        Step::Modify(Reg::Cbcdr, Field::new(27, 0b111), 0),
        Step::Modify(Reg::Cbcmr, Field::new(12, 0b11), 1),
        Step::WaitHandshake,
        Step::Modify(Reg::Cbcdr, Field::new(25, 1), 1),
        Step::WaitHandshake,
        Step::WriteZero(Reg::PllArm, Field::new(12, 1), 1),
        Step::WriteZero(Reg::PllArm, Field::new(0, 0x7f), t.pll_arm_div_sel),
        Step::Modify(Reg::PllArm, Field::new(13, 1), 1),
        Step::WaitPllLock,
        Step::Modify(Reg::Cacrr, Field::new(0, 0x7), t.div_arm - 1),
        Step::WaitHandshake,
        Step::Modify(Reg::Cbcdr, Field::new(10, 0x7), t.div_ahb - 1),
        Step::WaitHandshake,
        Step::Modify(Reg::Cbcdr, Field::new(8, 0x3), t.div_ipg - 1),
        Step::Modify(Reg::Cbcmr, Field::new(18, 0x3), 3),
        Step::Modify(Reg::Cbcdr, Field::new(25, 1), 0),
        Step::WaitHandshake,
    ];
    assert_eq!(steps, expected);
}

#[test]
fn running_the_steps_matches_set_frequency() {
    let mut by_steps = Handle::new();
    by_steps.cbcmr = 0x1234_5678;
    let mut direct = by_steps;
    let steps = set_frequency_steps(528_000_000);
    by_steps.run(&steps);
    let returned = set_frequency(&mut direct, 528_000_000);
    assert_eq!(frequency(&by_steps), returned);
    assert_eq!(by_steps.cbcdr, direct.cbcdr);
    assert_eq!(by_steps.cbcmr, direct.cbcmr);
    assert_eq!(by_steps.cacrr, direct.cacrr);
    assert_eq!(by_steps.pll_arm, direct.pll_arm);
}
