use imxrt_ccm::handle::Handle;
use imxrt_ccm::i2c::{configure, frequency, CLOCK_FREQUENCY_HZ};

#[test]
fn i2c_divider_upper_bound() {
    let mut handle = Handle::new();
    configure(&mut handle, 65);
    assert_eq!(frequency(&handle), CLOCK_FREQUENCY_HZ / 64);
}

#[test]
fn i2c_divider_lower_bound() {
    let mut handle = Handle::new();
    configure(&mut handle, 0);
    assert_eq!(frequency(&handle), CLOCK_FREQUENCY_HZ);
}

#[test]
fn i2c_divider() {
    let mut handle = Handle::new();
    configure(&mut handle, 7);
    assert_eq!(frequency(&handle), CLOCK_FREQUENCY_HZ / 7);
}

#[test]
fn i2c_configure_writes_divider_and_oscillator() {
    let mut handle = Handle::new();
    handle.cscdr2 = 0xFFFF_FFFF;
    configure(&mut handle, 3);
    // LPI2C_CLK_PODF = 2, LPI2C_CLK_SEL = 1, other bits kept
    assert_eq!(handle.cscdr2, 0xFE03_FFFF | (2 << 19) | (1 << 18));
    assert_eq!(frequency(&handle), 8_000_000);
}
