use imxrt_ccm::handle::Handle;
use imxrt_ccm::spi::{configure, frequency, CLOCK_FREQUENCY_HZ};

#[test]
fn spi_spi_divider_upper_bound() {
    let mut handle = Handle::new();
    configure(&mut handle, 9);
    assert_eq!(frequency(&handle), CLOCK_FREQUENCY_HZ / 8);
}

#[test]
fn spi_divider_lower_bound() {
    let mut handle = Handle::new();
    configure(&mut handle, 0);
    assert_eq!(frequency(&handle), CLOCK_FREQUENCY_HZ);
}

#[test]
fn spi_divider() {
    let mut handle = Handle::new();
    configure(&mut handle, 7);
    assert_eq!(frequency(&handle), CLOCK_FREQUENCY_HZ / 7);
}

#[test]
fn spi_configure_selects_pll2() {
    let mut handle = Handle::new();
    configure(&mut handle, 5);
    assert_eq!(handle.cbcmr, (4 << 26) | (2 << 4));
    assert_eq!(frequency(&handle), 105_600_000);
}
