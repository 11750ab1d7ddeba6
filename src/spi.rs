//! SPI clock control
use vstd::prelude::*;

use core::marker::PhantomData;

use crate::register::{lemma_set_read, spec_clamp, Field, Register};
use crate::sealed::Sealed;
use crate::{
    get_clock_gate, set_clock_gate, spec_gate_setting, spec_gate_words, ClockGate,
    ClockGateLocation, ClockGateLocator, Handle, Instance,
};

verus! {

/// Default SPI clock divider
pub const DEFAULT_CLOCK_DIVIDER: u32 = 5;

/// SPI clock frequency (Hz)
pub const CLOCK_FREQUENCY_HZ: u32 = 528_000_000;

/// Largest SPI clock divider
pub const MAX_DIVIDER: u32 = 8;

/// Clock selection of the SPI clock root: PLL2
pub const PLL2: u32 = 2;

/// The SPI clock
///
/// The SPI clock is based on PLL2.
pub struct SPIClock<S>(PhantomData<S>);

impl<S> SPIClock<S> {
    pub fn new() -> Self {
        SPIClock(PhantomData)
    }
}

/// Peripheral instance identifier for SPI
#[derive(Debug, Clone, Copy, PartialEq, Eq, Structural)]
pub enum SPI {
    SPI1,
    SPI2,
    SPI3,
    SPI4,
}

impl Sealed for SPI {}

impl ClockGateLocator for SPI {
    open spec fn spec_location(&self) -> ClockGateLocation {
        match self {
            SPI::SPI1 => ClockGateLocation { offset: 1, gates: &[0] },
            SPI::SPI2 => ClockGateLocation { offset: 1, gates: &[1] },
            SPI::SPI3 => ClockGateLocation { offset: 1, gates: &[2] },
            SPI::SPI4 => ClockGateLocation { offset: 1, gates: &[3] },
        }
    }

    fn location(&self) -> (r: ClockGateLocation) {
        let gates: &'static [usize] = match self {
            SPI::SPI1 => &[0],
            SPI::SPI2 => &[1],
            SPI::SPI3 => &[2],
            SPI::SPI4 => &[3],
        };
        ClockGateLocation { offset: 1, gates }
    }
}

/// The clock gate words after every SPI clock gate that `S` accepts is set
/// to off.
pub open spec fn spec_gates_off<S: Instance<Inst = SPI>>(words: Seq<u32>) -> Seq<u32> {
    let w = spec_gate_words::<S>(words, SPI::SPI1, ClockGate::Off);
    let w = spec_gate_words::<S>(w, SPI::SPI2, ClockGate::Off);
    let w = spec_gate_words::<S>(w, SPI::SPI3, ClockGate::Off);
    spec_gate_words::<S>(w, SPI::SPI4, ClockGate::Off)
}

impl<S: Instance<Inst = SPI>> SPIClock<S> {
    /// Configure the SPI clocks, specifying the clock divider
    ///
    /// The divider should be between [1, 8]. If you supply a divider
    /// outside of that closed range, the implementation will saturate the
    /// divider at the nearest extreme.
    ///
    /// When `configure_divider` returns, all SPI clock gates will be set to off.
    pub fn configure_divider(&mut self, handle: &mut Handle, divider: u32)
        requires
            old(handle).wf(),
        ensures
            final(handle).wf(),
            final(handle).ccgr@ == spec_gates_off::<S>(old(handle).ccgr@),
            *final(handle) == (Handle {
                ccgr: final(handle).ccgr,
                cbcmr: spec_configure(old(handle).cbcmr, divider),
                ..*old(handle)
            }),
    {
        set_clock_gate::<S>(handle, SPI::SPI1, ClockGate::Off);
        set_clock_gate::<S>(handle, SPI::SPI2, ClockGate::Off);
        set_clock_gate::<S>(handle, SPI::SPI3, ClockGate::Off);
        set_clock_gate::<S>(handle, SPI::SPI4, ClockGate::Off);
        configure(handle, divider);
    }

    /// Configure the SPI clocks with a default divider
    ///
    /// When `configure` returns, all SPI clock gates will be set to off.
    pub fn configure(&mut self, handle: &mut Handle)
        requires
            old(handle).wf(),
        ensures
            final(handle).wf(),
            final(handle).ccgr@ == spec_gates_off::<S>(old(handle).ccgr@),
            *final(handle) == (Handle {
                ccgr: final(handle).ccgr,
                cbcmr: spec_configure(old(handle).cbcmr, DEFAULT_CLOCK_DIVIDER),
                ..*old(handle)
            }),
    {
        self.configure_divider(handle, DEFAULT_CLOCK_DIVIDER);
    }

    /// Returns the clock gate setting for the SPI instance
    pub fn clock_gate(&self, handle: &Handle, spi: &S) -> (r: ClockGate)
        requires
            handle.wf(),
        ensures
            r == spec_gate_setting(*handle, spi.spec_instance().spec_location()),
    {
        get_clock_gate::<S>(handle, spi.instance()).unwrap()
    }

    /// Set the clock gate for the SPI instance
    pub fn set_clock_gate(&mut self, handle: &mut Handle, spi: &mut S, gate: ClockGate)
        requires
            old(handle).wf(),
        ensures
            final(handle).wf(),
            final(handle).ccgr@ == spec_gate_words::<S>(
                old(handle).ccgr@,
                old(spi).spec_instance(),
                gate,
            ),
            *final(handle) == (Handle { ccgr: final(handle).ccgr, ..*old(handle) }),
            *final(spi) == *old(spi),
    {
        set_clock_gate::<S>(handle, spi.instance(), gate);
    }

    /// Returns the SPI clock frequency
    pub fn frequency(&self, handle: &Handle) -> (r: u32)
        ensures
            r == spec_frequency(handle.cbcmr),
    {
        frequency(handle)
    }
}

/// The SPI clock root register, CBCMR: LPSPI_PODF and LPSPI_CLK_SEL
pub open spec fn spec_cbcmr() -> Register {
    Register { divider: Field::spec_new(26, 0x7), select: Field::spec_new(4, 0x3) }
}

fn cbcmr() -> (r: Register)
    ensures
        r == spec_cbcmr(),
        r.wf(),
{
    Register::new(Field::new(26, 0x7), Field::new(4, 0x3))
}

/// CBCMR after the SPI clock root is configured with `divider`.
pub open spec fn spec_configure(word: u32, divider: u32) -> u32 {
    spec_cbcmr().spec_set(word, (spec_clamp(divider, 1, MAX_DIVIDER) - 1) as u32, PLL2)
}

/// The SPI clock frequency that CBCMR describes when it holds `word`.
pub open spec fn spec_frequency(word: u32) -> u32 {
    (CLOCK_FREQUENCY_HZ as int / (spec_cbcmr().divider.spec_read(word) + 1)) as u32
}

/// Configure the SPI clock root
///
/// Configure will **not** disable peripheral clock gates. You should disable
/// clock gates yourself before calling this function.
///
/// The divider should be between [1, 8]. If you supply a divider
/// outside of that closed range, the implementation will saturate the
/// divider at the nearest extreme.
pub fn configure(handle: &mut Handle, divider: u32)
    ensures
        *final(handle) == (Handle { cbcmr: spec_configure(old(handle).cbcmr, divider), ..*old(handle) }),
{
    configure_(divider, &mut handle.cbcmr);
}

fn configure_(divider: u32, mem: &mut u32)
    ensures
        *final(mem) == spec_configure(*old(mem), divider),
{
    let divider = if divider > MAX_DIVIDER {
        MAX_DIVIDER
    } else if divider < 1 {
        1
    } else {
        divider
    };
    cbcmr().set(mem, divider.saturating_sub(1), PLL2);
}

/// Returns the SPI clock frequency
pub fn frequency(handle: &Handle) -> (r: u32)
    ensures
        r == spec_frequency(handle.cbcmr),
{
    frequency_(&handle.cbcmr)
}

fn frequency_(mem: &u32) -> (r: u32)
    ensures
        r == spec_frequency(*mem),
{
    let w = *mem;
    assert((w & (0x7u32 << 26u32)) >> 26u32 <= 0x7) by (bit_vector);
    let divider = cbcmr().divider(mem) + 1;
    CLOCK_FREQUENCY_HZ / divider
}

/// After the SPI clock root is configured with `divider`, the SPI clock runs
/// at 528MHz divided by `divider` limited to 1..=8.
pub proof fn lemma_configure_then_frequency(word: u32, divider: u32)
    ensures
        spec_frequency(spec_configure(word, divider)) == CLOCK_FREQUENCY_HZ / spec_clamp(
            divider,
            1,
            MAX_DIVIDER,
        ),
{
    let d = (spec_clamp(divider, 1, MAX_DIVIDER) - 1) as u32;
    assert((0x7u32 << 26u32) >> 26u32 == 0x7 && (0x3u32 << 4u32) >> 4u32 == 0x3 && (0x7u32
        << 26u32) & (0x3u32 << 4u32) == 0 && 2u32 & 0x3u32 == 2) by (bit_vector);
    assert(d & 0x7 == d) by (bit_vector)
        requires
            d <= 7,
    ;
    lemma_set_read(spec_cbcmr(), word, 26, 0x7, 4, 0x3, d, PLL2);
}

} // verus!
