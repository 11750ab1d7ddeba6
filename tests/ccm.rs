use imxrt_ccm::arm::{ARMClock, IPGClock};
use imxrt_ccm::handle::Handle;
use imxrt_ccm::i2c::{I2CClock, I2C};
use imxrt_ccm::perclock::{PerClock, Selection, GPT, PIT};
use imxrt_ccm::spi::SPI;
use imxrt_ccm::uart::{UARTClock, UART};
use imxrt_ccm::{
    get_clock_gate, set_clock_gate, ClockGate, Clocks, Disabled, Instance, ADC, CCM, DCDC, DMA,
    PWM,
};

struct MyDma;
impl Instance for MyDma {
    type Inst = DMA;
    fn instance(&self) -> DMA {
        DMA
    }
    fn is_valid(_: DMA) -> bool {
        true
    }
}

struct MyDcdc;
impl Instance for MyDcdc {
    type Inst = DCDC;
    fn instance(&self) -> DCDC {
        DCDC
    }
    fn is_valid(_: DCDC) -> bool {
        true
    }
}

/// Only ADC1 exists on this part
struct MyAdc;
impl Instance for MyAdc {
    type Inst = ADC;
    fn instance(&self) -> ADC {
        ADC::ADC1
    }
    fn is_valid(adc: ADC) -> bool {
        adc == ADC::ADC1
    }
}

struct MyPwm(PWM);
impl Instance for MyPwm {
    type Inst = PWM;
    fn instance(&self) -> PWM {
        self.0
    }
    fn is_valid(_: PWM) -> bool {
        true
    }
}

/// I2C1 and I2C2 only
struct MyI2c(I2C);
impl Instance for MyI2c {
    type Inst = I2C;
    fn instance(&self) -> I2C {
        self.0
    }
    fn is_valid(i2c: I2C) -> bool {
        i2c == I2C::I2C1 || i2c == I2C::I2C2
    }
}

struct MySpi(SPI);
impl Instance for MySpi {
    type Inst = SPI;
    fn instance(&self) -> SPI {
        self.0
    }
    fn is_valid(_: SPI) -> bool {
        true
    }
}

struct MyUart(UART);
impl Instance for MyUart {
    type Inst = UART;
    fn instance(&self) -> UART {
        self.0
    }
    fn is_valid(_: UART) -> bool {
        true
    }
}

struct MyGpt(GPT);
impl Instance for MyGpt {
    type Inst = GPT;
    fn instance(&self) -> GPT {
        self.0
    }
    fn is_valid(_: GPT) -> bool {
        true
    }
}

struct MyPit;
impl Instance for MyPit {
    type Inst = PIT;
    fn instance(&self) -> PIT {
        PIT
    }
    fn is_valid(_: PIT) -> bool {
        true
    }
}

struct TestClocks;
impl Clocks for TestClocks {
    type PIT = MyPit;
    type GPT = MyGpt;
    type UART = MyUart;
    type SPI = MySpi;
    type I2C = MyI2c;
}

#[test]
fn gate_settings_round_trip() {
    let mut handle = Handle::new();
    let mut ccm = CCM::<TestClocks>::new();
    let mut dma = MyDma;
    assert_eq!(ccm.clock_gate_dma(&handle, &dma), ClockGate::Off);
    ccm.set_clock_gate_dma(&mut handle, &mut dma, ClockGate::On);
    assert_eq!(ccm.clock_gate_dma(&handle, &dma), ClockGate::On);
    assert_eq!(handle.ccgr[5], 0b11 << 6);
    ccm.set_clock_gate_dma(&mut handle, &mut dma, ClockGate::OnlyRun);
    assert_eq!(ccm.clock_gate_dma(&handle, &dma), ClockGate::OnlyRun);
    assert_eq!(handle.ccgr[5], 0b01 << 6);
}

#[test]
fn setting_the_same_gate_twice_is_idempotent() {
    let mut handle = Handle::new();
    handle.ccgr = [0xFFFF_FFFF; 8];
    let mut ccm = CCM::<TestClocks>::new();
    let mut dcdc = MyDcdc;
    for gate in [ClockGate::Off, ClockGate::OnlyRun, ClockGate::On] {
        ccm.set_clock_gate_dcdc(&mut handle, &mut dcdc, gate);
        let once = handle.ccgr;
        ccm.set_clock_gate_dcdc(&mut handle, &mut dcdc, gate);
        assert_eq!(handle.ccgr, once);
        assert_eq!(ccm.clock_gate_dcdc(&handle, &dcdc), gate);
    }
}

#[test]
fn invalid_instance_is_left_alone() {
    let mut handle = Handle::new();
    set_clock_gate::<MyAdc>(&mut handle, ADC::ADC2, ClockGate::On);
    assert_eq!(handle.ccgr, [0; 8]);
    assert_eq!(get_clock_gate::<MyAdc>(&handle, ADC::ADC2), None);
    set_clock_gate::<MyAdc>(&mut handle, ADC::ADC1, ClockGate::On);
    assert_eq!(handle.ccgr[1], 0b11 << 16);
    assert_eq!(get_clock_gate::<MyAdc>(&handle, ADC::ADC1), Some(ClockGate::On));
}

#[test]
fn adc_and_pwm_gates() {
    let mut handle = Handle::new();
    let mut ccm = CCM::<TestClocks>::new();
    let mut adc = MyAdc;
    let mut pwm = MyPwm(PWM::PWM3);
    ccm.set_clock_gate_adc(&mut handle, &mut adc, ClockGate::OnlyRun);
    ccm.set_clock_gate_pwm(&mut handle, &mut pwm, ClockGate::On);
    assert_eq!(ccm.clock_gate_adc(&handle, &adc), ClockGate::OnlyRun);
    assert_eq!(ccm.clock_gate_pwm(&handle, &pwm), ClockGate::On);
    assert_eq!(handle.ccgr[4], 0b11 << 20);
    assert_eq!(ccm.clock_gate_pwm(&handle, &MyPwm(PWM::PWM1)), ClockGate::Off);
}

#[test]
fn gpt_uses_two_gates() {
    let mut handle = Handle::new();
    let mut ccm = CCM::<TestClocks>::new();
    let mut gpt = MyGpt(GPT::GPT1);
    let mut pit = MyPit;
    ccm.perclock_mut().set_clock_gate_gpt(&mut handle, &mut gpt, ClockGate::On);
    assert_eq!(handle.ccgr[1], (0b11 << 20) | (0b11 << 22));
    assert_eq!(ccm.perclock().clock_gate_gpt(&handle, &gpt), ClockGate::On);
    ccm.perclock_mut().set_clock_gate_pit(&mut handle, &mut pit, ClockGate::On);
    assert_eq!(ccm.perclock().clock_gate_pit(&handle, &pit), ClockGate::On);
    assert_eq!(handle.ccgr[1], (0b11 << 20) | (0b11 << 22) | (0b11 << 12));
}

#[test]
fn i2c_configure_turns_valid_gates_off() {
    let mut handle = Handle::new();
    handle.ccgr = [0xFFFF_FFFF; 8];
    let mut ccm = CCM::<TestClocks>::new();
    ccm.i2c_clock_mut().configure_divider(&mut handle, 8);
    // I2C1 and I2C2 are off; I2C3 and I2C4 are not valid for MyI2c and stay on
    assert_eq!(ccm.i2c_clock().clock_gate(&handle, &MyI2c(I2C::I2C1)), ClockGate::Off);
    assert_eq!(ccm.i2c_clock().clock_gate(&handle, &MyI2c(I2C::I2C2)), ClockGate::Off);
    assert_eq!(handle.ccgr[2], 0xFFFF_FFFF & !(0b1111 << 6));
    assert_eq!(handle.ccgr[6], 0xFFFF_FFFF);
    assert_eq!(ccm.i2c_clock().frequency(&handle), 3_000_000);

    ccm.i2c_clock_mut().configure(&mut handle);
    assert_eq!(ccm.i2c_clock().frequency(&handle), 8_000_000);
    let mut i2c = MyI2c(I2C::I2C2);
    ccm.i2c_clock_mut().set_clock_gate(&mut handle, &mut i2c, ClockGate::On);
    assert_eq!(ccm.i2c_clock().clock_gate(&handle, &i2c), ClockGate::On);
}

#[test]
fn spi_configure_turns_gates_off() {
    let mut handle = Handle::new();
    handle.ccgr = [0xFFFF_FFFF; 8];
    let mut ccm = CCM::<TestClocks>::new();
    ccm.spi_clock_mut().configure(&mut handle);
    assert_eq!(handle.ccgr[1], 0xFFFF_FF00);
    assert_eq!(ccm.spi_clock().frequency(&handle), 105_600_000);
    let mut spi = MySpi(SPI::SPI4);
    ccm.spi_clock_mut().set_clock_gate(&mut handle, &mut spi, ClockGate::OnlyRun);
    assert_eq!(ccm.spi_clock().clock_gate(&handle, &spi), ClockGate::OnlyRun);
}

#[test]
fn uart_enable_turns_gates_off() {
    let mut handle = Handle::new();
    handle.ccgr = [0xFFFF_FFFF; 8];
    let mut uart_clock: UARTClock<MyUart> = Disabled(UARTClock::new()).enable(&mut handle);
    assert_eq!(uart_clock.frequency(&handle), 24_000_000);
    for uart in [
        UART::UART1,
        UART::UART2,
        UART::UART3,
        UART::UART4,
        UART::UART5,
        UART::UART6,
        UART::UART7,
        UART::UART8,
    ] {
        assert_eq!(uart_clock.clock_gate(&handle, &MyUart(uart)), ClockGate::Off);
    }
    let mut uart = MyUart(UART::UART6);
    uart_clock.set_clock_gate(&mut handle, &mut uart, ClockGate::On);
    assert_eq!(uart_clock.clock_gate(&handle, &uart), ClockGate::On);
    let uart_clock: UARTClock<MyUart> = Disabled(UARTClock::new()).enable_divider(&mut handle, 4);
    assert_eq!(uart_clock.frequency(&handle), 6_000_000);
    let ccm = CCM::<TestClocks>::new();
    assert_eq!(ccm.uart_clock().frequency(&handle), 6_000_000);
}

#[test]
fn perclock_enable_defaults_to_1mhz() {
    let mut handle = Handle::new();
    handle.ccgr = [0xFFFF_FFFF; 8];
    let perclock: PerClock<MyPit, MyGpt> = Disabled(PerClock::new()).enable(&mut handle);
    assert_eq!(perclock.selection(&handle), Selection::Oscillator);
    assert_eq!(perclock.frequency(&handle), 1_000_000);
    assert_eq!(perclock.try_frequency(&handle), Some(1_000_000));
    assert_eq!(perclock.clock_gate_gpt(&handle, &MyGpt(GPT::GPT2)), ClockGate::Off);
    assert_eq!(perclock.clock_gate_pit(&handle, &MyPit), ClockGate::Off);
}

#[test]
fn perclock_on_ipg_has_no_try_frequency() {
    let mut handle = Handle::new();
    let mut ccm = CCM::<TestClocks>::new();
    ccm.set_frequency_arm(&mut handle, 600_000_000);
    let perclock: PerClock<MyPit, MyGpt> =
        Disabled(PerClock::new()).enable_selection_divider(&mut handle, Selection::IPG, 3);
    assert_eq!(perclock.try_frequency(&handle), None);
    assert_eq!(perclock.frequency(&handle), 50_000_000);
}

#[test]
fn ccm_sets_and_reads_the_arm_clock() {
    let mut handle = Handle::new();
    let mut ccm = CCM::<TestClocks>::new();
    let set = ccm.set_frequency_arm(&mut handle, 600_000_000);
    assert_eq!(set, (ARMClock(600_000_000), IPGClock(150_000_000)));
    assert_eq!(ccm.frequency_arm(&handle), set);
}

#[test]
fn clock_gate_bits_and_from_u8() {
    for gate in [ClockGate::Off, ClockGate::OnlyRun, ClockGate::On] {
        assert_eq!(ClockGate::from_u8(gate.bits()), gate);
    }
    assert_eq!(ClockGate::from_u8(0b111), ClockGate::On);
    assert_eq!(ClockGate::from_u8(0b100), ClockGate::Off);
}
