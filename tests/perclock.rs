use imxrt_ccm::arm::set_frequency;
use imxrt_ccm::handle::Handle;
use imxrt_ccm::perclock::{configure, frequency, selection, Selection};
use imxrt_ccm::OSCILLATOR_FREQUENCY_HZ;

#[test]
fn perclk_divider_upper_bound() {
    let mut handle = Handle::new();
    configure(&mut handle, Selection::Oscillator, 65);
    assert_eq!(frequency(&handle), OSCILLATOR_FREQUENCY_HZ / 64);
}

#[test]
fn perclk_divider_lower_bound() {
    let mut handle = Handle::new();
    configure(&mut handle, Selection::Oscillator, 0);
    assert_eq!(frequency(&handle), OSCILLATOR_FREQUENCY_HZ);
}

#[test]
fn perclk_divider() {
    let mut handle = Handle::new();
    configure(&mut handle, Selection::Oscillator, 7);
    assert_eq!(frequency(&handle), OSCILLATOR_FREQUENCY_HZ / 7);
}

#[test]
fn perclk_ipg() {
    let mut handle = Handle::new();
    set_frequency(&mut handle, 600_000_000);
    configure(&mut handle, Selection::IPG, 2);
    assert_eq!(frequency(&handle), 150_000_000 / 2);
}

#[test]
fn perclk_selection_reads_back() {
    let mut handle = Handle::new();
    configure(&mut handle, Selection::IPG, 24);
    assert_eq!(selection(&handle), Selection::IPG);
    configure(&mut handle, Selection::Oscillator, 24);
    assert_eq!(selection(&handle), Selection::Oscillator);
    assert_eq!(frequency(&handle), 1_000_000);
}
