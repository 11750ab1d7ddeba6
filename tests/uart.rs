use imxrt_ccm::handle::Handle;
use imxrt_ccm::uart::{configure, frequency, CLOCK_FREQUENCY_HZ};

#[test]
fn uart_divider_upper_bound() {
    let mut handle = Handle::new();
    configure(&mut handle, 65);
    assert_eq!(frequency(&handle), CLOCK_FREQUENCY_HZ / 64);
}

#[test]
fn uart_divider_lower_bound() {
    let mut handle = Handle::new();
    configure(&mut handle, 0);
    assert_eq!(frequency(&handle), CLOCK_FREQUENCY_HZ);
}

#[test]
fn uart_divider() {
    let mut handle = Handle::new();
    configure(&mut handle, 7);
    assert_eq!(frequency(&handle), CLOCK_FREQUENCY_HZ / 7);
}
