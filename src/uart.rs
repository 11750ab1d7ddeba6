//! UART clock control
use vstd::prelude::*;

use core::marker::PhantomData;

use crate::register::{lemma_set_read, spec_clamp, Field, Register};
use crate::sealed::Sealed;
use crate::{
    get_clock_gate, set_clock_gate, spec_gate_setting, spec_gate_words, ClockGate,
    ClockGateLocation, ClockGateLocator, Disabled, Handle, Instance,
};

verus! {

/// UART clock frequency (Hz)
pub const CLOCK_FREQUENCY_HZ: u32 = crate::OSCILLATOR_FREQUENCY_HZ;

/// Default UART clock divider
pub const DEFAULT_CLOCK_DIVIDER: u32 = 1;

/// Largest UART clock divider
pub const MAX_DIVIDER: u32 = 64;

/// Clock selection of the UART clock root: the crystal oscillator
pub const OSCILLATOR: u32 = 1;

/// The UART clock
///
/// The UART clock is based on the crystal oscillator.
pub struct UARTClock<U>(PhantomData<U>);

impl<U> UARTClock<U> {
    pub fn new() -> Self {
        UARTClock(PhantomData)
    }
}

/// Peripheral instance identifier for UART
#[derive(Debug, Clone, Copy, PartialEq, Eq, Structural)]
pub enum UART {
    UART1,
    UART2,
    UART3,
    UART4,
    UART5,
    UART6,
    UART7,
    UART8,
}

impl Sealed for UART {}

impl ClockGateLocator for UART {
    open spec fn spec_location(&self) -> ClockGateLocation {
        match self {
            UART::UART1 => ClockGateLocation { offset: 5, gates: &[12] },
            UART::UART2 => ClockGateLocation { offset: 0, gates: &[14] },
            UART::UART3 => ClockGateLocation { offset: 0, gates: &[6] },
            UART::UART4 => ClockGateLocation { offset: 1, gates: &[12] },
            UART::UART5 => ClockGateLocation { offset: 3, gates: &[1] },
            UART::UART6 => ClockGateLocation { offset: 3, gates: &[3] },
            UART::UART7 => ClockGateLocation { offset: 5, gates: &[13] },
            UART::UART8 => ClockGateLocation { offset: 6, gates: &[7] },
        }
    }

    fn location(&self) -> (r: ClockGateLocation) {
        match self {
            UART::UART1 => ClockGateLocation { offset: 5, gates: &[12] },
            UART::UART2 => ClockGateLocation { offset: 0, gates: &[14] },
            UART::UART3 => ClockGateLocation { offset: 0, gates: &[6] },
            UART::UART4 => ClockGateLocation { offset: 1, gates: &[12] },
            UART::UART5 => ClockGateLocation { offset: 3, gates: &[1] },
            UART::UART6 => ClockGateLocation { offset: 3, gates: &[3] },
            UART::UART7 => ClockGateLocation { offset: 5, gates: &[13] },
            UART::UART8 => ClockGateLocation { offset: 6, gates: &[7] },
        }
    }
}

/// The clock gate words after every UART clock gate that `U` accepts is set
/// to off.
pub open spec fn spec_gates_off<U: Instance<Inst = UART>>(words: Seq<u32>) -> Seq<u32> {
    let w = spec_gate_words::<U>(words, UART::UART1, ClockGate::Off);
    let w = spec_gate_words::<U>(w, UART::UART2, ClockGate::Off);
    let w = spec_gate_words::<U>(w, UART::UART3, ClockGate::Off);
    let w = spec_gate_words::<U>(w, UART::UART4, ClockGate::Off);
    let w = spec_gate_words::<U>(w, UART::UART5, ClockGate::Off);
    let w = spec_gate_words::<U>(w, UART::UART6, ClockGate::Off);
    let w = spec_gate_words::<U>(w, UART::UART7, ClockGate::Off);
    spec_gate_words::<U>(w, UART::UART8, ClockGate::Off)
}

impl<U: Instance<Inst = UART>> Disabled<UARTClock<U>> {
    /// Enable the UART clocks with default divider
    ///
    /// When `enable` returns, all UART clock gates will be set to off.
    pub fn enable(self, handle: &mut Handle) -> (r: UARTClock<U>)
        requires
            old(handle).wf(),
        ensures
            final(handle).wf(),
            final(handle).ccgr@ == spec_gates_off::<U>(old(handle).ccgr@),
            *final(handle) == (Handle {
                ccgr: final(handle).ccgr,
                cscdr1: spec_configure(old(handle).cscdr1, DEFAULT_CLOCK_DIVIDER),
                ..*old(handle)
            }),
    {
        self.enable_divider(handle, DEFAULT_CLOCK_DIVIDER)
    }

    /// Enable the UART clocks with a clock divider.
    ///
    /// The divider should be between [1, 64]. The function will treat a 0 as 1,
    /// and anything greater than 64 as 64.
    ///
    /// When `enable_divider` returns, all UART clock gates will be set to off.
    pub fn enable_divider(self, handle: &mut Handle, divider: u32) -> (r: UARTClock<U>)
        requires
            old(handle).wf(),
        ensures
            final(handle).wf(),
            final(handle).ccgr@ == spec_gates_off::<U>(old(handle).ccgr@),
            *final(handle) == (Handle {
                ccgr: final(handle).ccgr,
                cscdr1: spec_configure(old(handle).cscdr1, divider),
                ..*old(handle)
            }),
    {
        set_clock_gate::<U>(handle, UART::UART1, ClockGate::Off);
        set_clock_gate::<U>(handle, UART::UART2, ClockGate::Off);
        set_clock_gate::<U>(handle, UART::UART3, ClockGate::Off);
        set_clock_gate::<U>(handle, UART::UART4, ClockGate::Off);
        set_clock_gate::<U>(handle, UART::UART5, ClockGate::Off);
        set_clock_gate::<U>(handle, UART::UART6, ClockGate::Off);
        set_clock_gate::<U>(handle, UART::UART7, ClockGate::Off);
        set_clock_gate::<U>(handle, UART::UART8, ClockGate::Off);
        configure(handle, divider);
        self.0
    }
}

impl<U: Instance<Inst = UART>> UARTClock<U> {
    /// Returns the clock gate setting for the UART instance
    pub fn clock_gate(&self, handle: &Handle, uart: &U) -> (r: ClockGate)
        requires
            handle.wf(),
        ensures
            r == spec_gate_setting(*handle, uart.spec_instance().spec_location()),
    {
        get_clock_gate::<U>(handle, uart.instance()).unwrap()
    }

    /// Set the clock gate for the UART instance
    pub fn set_clock_gate(&mut self, handle: &mut Handle, uart: &mut U, gate: ClockGate)
        requires
            old(handle).wf(),
        ensures
            final(handle).wf(),
            final(handle).ccgr@ == spec_gate_words::<U>(
                old(handle).ccgr@,
                old(uart).spec_instance(),
                gate,
            ),
            *final(handle) == (Handle { ccgr: final(handle).ccgr, ..*old(handle) }),
            *final(uart) == *old(uart),
    {
        set_clock_gate::<U>(handle, uart.instance(), gate);
    }

    /// Returns the UART clock frequency
    pub fn frequency(&self, handle: &Handle) -> (r: u32)
        ensures
            r == spec_frequency(handle.cscdr1),
    {
        frequency(handle)
    }
}

/// The UART clock root register, CSCDR1: UART_CLK_PODF and UART_CLK_SEL
///
/// The selection field is one bit wide on some chips; the bit beside it is
/// reserved there.
pub open spec fn spec_cscdr1() -> Register {
    Register { divider: Field::spec_new(0, 0x3F), select: Field::spec_new(6, 0x3) }
}

fn cscdr1() -> (r: Register)
    ensures
        r == spec_cscdr1(),
        r.wf(),
{
    Register::new(Field::new(0, 0x3F), Field::new(6, 0x3))
}

/// CSCDR1 after the UART clock root is configured with `divider`.
pub open spec fn spec_configure(word: u32, divider: u32) -> u32 {
    spec_cscdr1().spec_set(word, (spec_clamp(divider, 1, MAX_DIVIDER) - 1) as u32, OSCILLATOR)
}

/// The UART clock frequency that CSCDR1 describes when it holds `word`.
pub open spec fn spec_frequency(word: u32) -> u32 {
    (CLOCK_FREQUENCY_HZ as int / (spec_cscdr1().divider.spec_read(word) + 1)) as u32
}

/// Configure the UART clock root
///
/// Configure will **not** disable peripheral clock gates. You should disable
/// clock gates yourself before calling this function.
///
/// The divider should be between [1, 64]. The function will treat a 0 as 1,
/// and anything greater than 64 as 64.
pub fn configure(handle: &mut Handle, divider: u32)
    ensures
        *final(handle) == (Handle { cscdr1: spec_configure(old(handle).cscdr1, divider), ..*old(handle) }),
{
    configure_(divider, &mut handle.cscdr1);
}

fn configure_(divider: u32, mem: &mut u32)
    ensures
        *final(mem) == spec_configure(*old(mem), divider),
{
    let divider = if divider > MAX_DIVIDER {
        MAX_DIVIDER
    } else if divider < 1 {
        1
    } else {
        divider
    };
    cscdr1().set(mem, divider.saturating_sub(1), OSCILLATOR);
}

/// Returns the UART clock frequency
pub fn frequency(handle: &Handle) -> (r: u32)
    ensures
        r == spec_frequency(handle.cscdr1),
{
    frequency_(&handle.cscdr1)
}

fn frequency_(mem: &u32) -> (r: u32)
    ensures
        r == spec_frequency(*mem),
{
    let w = *mem;
    assert((w & (0x3Fu32 << 0u32)) >> 0u32 <= 0x3F) by (bit_vector);
    let divider = cscdr1().divider(mem) + 1;
    CLOCK_FREQUENCY_HZ / divider
}

/// After the UART clock root is configured with `divider`, the UART clock runs
/// at 24MHz divided by `divider` limited to 1..=64.
pub proof fn lemma_configure_then_frequency(word: u32, divider: u32)
    ensures
        spec_frequency(spec_configure(word, divider)) == CLOCK_FREQUENCY_HZ / spec_clamp(
            divider,
            1,
            MAX_DIVIDER,
        ),
{
    let d = (spec_clamp(divider, 1, MAX_DIVIDER) - 1) as u32;
    assert((0x3Fu32 << 0u32) >> 0u32 == 0x3F && (0x3u32 << 6u32) >> 6u32 == 0x3 && (0x3Fu32
        << 0u32) & (0x3u32 << 6u32) == 0 && 1u32 & 0x3u32 == 1) by (bit_vector);
    assert(d & 0x3F == d) by (bit_vector)
        requires
            d <= 63,
    ;
    lemma_set_read(spec_cscdr1(), word, 0, 0x3F, 6, 0x3, d, OSCILLATOR);
}

} // verus!
