//! I2C clock control
use vstd::prelude::*;

use core::marker::PhantomData;

use crate::register::{lemma_set_read, spec_clamp, Field, Register};
use crate::sealed::Sealed;
use crate::{
    get_clock_gate, set_clock_gate, spec_gate_setting, spec_gate_words, ClockGate,
    ClockGateLocation, ClockGateLocator, Handle, Instance,
};

verus! {

/// Base I2C clock frequency (Hz)
pub const CLOCK_FREQUENCY_HZ: u32 = crate::OSCILLATOR_FREQUENCY_HZ;

/// Default I2C peripheral clock divider
pub const DEFAULT_CLOCK_DIVIDER: u32 = 3;

/// Largest I2C clock divider
pub const MAX_DIVIDER: u32 = 64;

/// Clock selection of the I2C clock root: the crystal oscillator
pub const OSCILLATOR: u32 = 1;

/// The I2C clock
///
/// The I2C clock is based on the crystal oscillator.
pub struct I2CClock<I>(PhantomData<I>);

impl<I> I2CClock<I> {
    pub fn new() -> Self {
        I2CClock(PhantomData)
    }
}

/// Peripheral instance identifier for I2C
#[derive(Debug, Clone, Copy, PartialEq, Eq, Structural)]
pub enum I2C {
    I2C1,
    I2C2,
    I2C3,
    I2C4,
}

impl Sealed for I2C {}

impl ClockGateLocator for I2C {
    open spec fn spec_location(&self) -> ClockGateLocation {
        match self {
            I2C::I2C1 => ClockGateLocation { offset: 2, gates: &[3] },
            I2C::I2C2 => ClockGateLocation { offset: 2, gates: &[4] },
            I2C::I2C3 => ClockGateLocation { offset: 2, gates: &[5] },
            I2C::I2C4 => ClockGateLocation { offset: 6, gates: &[12] },
        }
    }

    fn location(&self) -> (r: ClockGateLocation) {
        match self {
            I2C::I2C1 => ClockGateLocation { offset: 2, gates: &[3] },
            I2C::I2C2 => ClockGateLocation { offset: 2, gates: &[4] },
            I2C::I2C3 => ClockGateLocation { offset: 2, gates: &[5] },
            I2C::I2C4 => ClockGateLocation { offset: 6, gates: &[12] },
        }
    }
}

/// The clock gate words after every I2C clock gate that `I` accepts is set
/// to off.
pub open spec fn spec_gates_off<I: Instance<Inst = I2C>>(words: Seq<u32>) -> Seq<u32> {
    let w = spec_gate_words::<I>(words, I2C::I2C1, ClockGate::Off);
    let w = spec_gate_words::<I>(w, I2C::I2C2, ClockGate::Off);
    let w = spec_gate_words::<I>(w, I2C::I2C3, ClockGate::Off);
    spec_gate_words::<I>(w, I2C::I2C4, ClockGate::Off)
}

impl<I: Instance<Inst = I2C>> I2CClock<I> {
    /// Configure the I2C clocks, and supply the clock divider.
    ///
    /// The divider should be between [1, 64]. The function will treat a 0 as 1,
    /// and anything greater than 64 as 64.
    ///
    /// When `configure_divider` returns, all I2C clock gates will be set to off.
    pub fn configure_divider(&mut self, handle: &mut Handle, divider: u32)
        requires
            old(handle).wf(),
        ensures
            final(handle).wf(),
            final(handle).ccgr@ == spec_gates_off::<I>(old(handle).ccgr@),
            *final(handle) == (Handle {
                ccgr: final(handle).ccgr,
                cscdr2: spec_configure(old(handle).cscdr2, divider),
                ..*old(handle)
            }),
    {
        set_clock_gate::<I>(handle, I2C::I2C1, ClockGate::Off);
        set_clock_gate::<I>(handle, I2C::I2C2, ClockGate::Off);
        set_clock_gate::<I>(handle, I2C::I2C3, ClockGate::Off);
        set_clock_gate::<I>(handle, I2C::I2C4, ClockGate::Off);
        configure(handle, divider);
    }

    /// Configure the I2C clocks with a default divider
    ///
    /// The default divider will allow the I2C peripheral to support both
    /// 100KHz and 400KHz clock speeds.
    ///
    /// When `configure` returns, all I2C clock gates will be set to off.
    pub fn configure(&mut self, handle: &mut Handle)
        requires
            old(handle).wf(),
        ensures
            final(handle).wf(),
            final(handle).ccgr@ == spec_gates_off::<I>(old(handle).ccgr@),
            *final(handle) == (Handle {
                ccgr: final(handle).ccgr,
                cscdr2: spec_configure(old(handle).cscdr2, DEFAULT_CLOCK_DIVIDER),
                ..*old(handle)
            }),
    {
        self.configure_divider(handle, DEFAULT_CLOCK_DIVIDER);
    }

    /// Set the clock gate setting for the I2C instance
    pub fn set_clock_gate(&mut self, handle: &mut Handle, i2c: &mut I, gate: ClockGate)
        requires
            old(handle).wf(),
        ensures
            final(handle).wf(),
            final(handle).ccgr@ == spec_gate_words::<I>(
                old(handle).ccgr@,
                old(i2c).spec_instance(),
                gate,
            ),
            *final(handle) == (Handle { ccgr: final(handle).ccgr, ..*old(handle) }),
            *final(i2c) == *old(i2c),
    {
        set_clock_gate::<I>(handle, i2c.instance(), gate);
    }

    /// Returns the clock gate setting for the I2C instance
    pub fn clock_gate(&self, handle: &Handle, i2c: &I) -> (r: ClockGate)
        requires
            handle.wf(),
        ensures
            r == spec_gate_setting(*handle, i2c.spec_instance().spec_location()),
    {
        get_clock_gate::<I>(handle, i2c.instance()).unwrap()
    }

    /// Returns the configured I2C clock frequency
    pub fn frequency(&self, handle: &Handle) -> (r: u32)
        ensures
            r == spec_frequency(handle.cscdr2),
    {
        frequency(handle)
    }
}

/// The I2C clock root register, CSCDR2: LPI2C_CLK_PODF and LPI2C_CLK_SEL
pub open spec fn spec_cscdr2() -> Register {
    Register { divider: Field::spec_new(19, 0x3F), select: Field::spec_new(18, 0x01) }
}

fn cscdr2() -> (r: Register)
    ensures
        r == spec_cscdr2(),
        r.wf(),
{
    Register::new(Field::new(19, 0x3F), Field::new(18, 0x01))
}

/// CSCDR2 after the I2C clock root is configured with `divider`.
pub open spec fn spec_configure(word: u32, divider: u32) -> u32 {
    spec_cscdr2().spec_set(word, (spec_clamp(divider, 1, MAX_DIVIDER) - 1) as u32, OSCILLATOR)
}

/// The I2C clock frequency that CSCDR2 describes when it holds `word`.
pub open spec fn spec_frequency(word: u32) -> u32 {
    (CLOCK_FREQUENCY_HZ as int / (spec_cscdr2().divider.spec_read(word) + 1)) as u32
}

/// Configure the I2C clock root, specifying a clock divider
///
/// Configure will **not** disable peripheral clock gates. You should disable
/// clock gates yourself before calling this function.
///
/// Clock divider should be between [1, 64]. The function will treat a 0 as 1,
/// and anything greater than 64 as 64.
pub fn configure(handle: &mut Handle, divider: u32)
    ensures
        *final(handle) == (Handle { cscdr2: spec_configure(old(handle).cscdr2, divider), ..*old(handle) }),
{
    configure_(divider, &mut handle.cscdr2);
}

fn configure_(divider: u32, mem: &mut u32)
    ensures
        *final(mem) == spec_configure(*old(mem), divider),
{
    let divider = if divider > MAX_DIVIDER {
        MAX_DIVIDER
    } else if divider < 1 {
        1
    } else {
        divider
    };
    cscdr2().set(mem, divider.saturating_sub(1), OSCILLATOR);
}

/// Returns the I2C clock frequency
pub fn frequency(handle: &Handle) -> (r: u32)
    ensures
        r == spec_frequency(handle.cscdr2),
{
    frequency_(&handle.cscdr2)
}

fn frequency_(mem: &u32) -> (r: u32)
    ensures
        r == spec_frequency(*mem),
{
    let w = *mem;
    assert((w & (0x3Fu32 << 19u32)) >> 19u32 <= 0x3F) by (bit_vector);
    let divider = cscdr2().divider(mem) + 1;
    CLOCK_FREQUENCY_HZ / divider
}

/// After the I2C clock root is configured with `divider`, the I2C clock runs
/// at 24MHz divided by `divider` limited to 1..=64.
pub proof fn lemma_configure_then_frequency(word: u32, divider: u32)
    ensures
        spec_frequency(spec_configure(word, divider)) == CLOCK_FREQUENCY_HZ / spec_clamp(
            divider,
            1,
            MAX_DIVIDER,
        ),
{
    let d = (spec_clamp(divider, 1, MAX_DIVIDER) - 1) as u32;
    assert((0x3Fu32 << 19u32) >> 19u32 == 0x3F && (0x01u32 << 18u32) >> 18u32 == 0x01 && (0x3Fu32
        << 19u32) & (0x01u32 << 18u32) == 0 && 1u32 & 0x01u32 == 1) by (bit_vector);
    assert(d & 0x3F == d) by (bit_vector)
        requires
            d <= 63,
    ;
    lemma_set_read(spec_cscdr2(), word, 19, 0x3F, 18, 0x01, d, OSCILLATOR);
}

} // verus!
