//! Periodic clock implementations
//!
//! The periodic clock drives the GPT and PIT timers.
use vstd::prelude::*;

use core::marker::PhantomData;

use crate::arm;
use crate::register::{lemma_set_read, spec_clamp, Field, Register};
use crate::sealed::Sealed;
use crate::{
    get_clock_gate, set_clock_gate, spec_gate_setting, spec_gate_words, ClockGate,
    ClockGateLocation, ClockGateLocator, Disabled, Handle, Instance,
    OSCILLATOR_FREQUENCY_HZ,
};

verus! {

/// Default periodic clock divider: 1MHz from the crystal oscillator
pub const DEFAULT_CLOCK_DIVIDER: u32 = 24;

/// Largest periodic clock divider
pub const MAX_DIVIDER: u32 = 64;

/// Peripheral instance identifier for GPT
#[derive(Debug, Clone, Copy, PartialEq, Eq, Structural)]
pub enum GPT {
    GPT1,
    GPT2,
}

/// Periodic clock selection
#[derive(Debug, Clone, Copy, PartialEq, Eq, Structural)]
pub enum Selection {
    /// Use the IPG clock root
    ///
    /// This assumes that you've configured the IPG clock elsewhere.
    IPG,
    /// Use the crystal oscillator
    Oscillator,
}

impl Sealed for GPT {}

impl ClockGateLocator for GPT {
    open spec fn spec_location(&self) -> ClockGateLocation {
        match self {
            GPT::GPT1 => ClockGateLocation { offset: 1, gates: &[10, 11] },
            GPT::GPT2 => ClockGateLocation { offset: 0, gates: &[12, 13] },
        }
    }

    fn location(&self) -> (r: ClockGateLocation) {
        match self {
            GPT::GPT1 => ClockGateLocation { offset: 1, gates: &[10, 11] },
            GPT::GPT2 => ClockGateLocation { offset: 0, gates: &[12, 13] },
        }
    }
}

/// Peripheral instance identifier for PIT
#[derive(Debug, PartialEq, Eq, Copy, Clone, Structural)]
pub struct PIT;

impl Sealed for PIT {}

impl ClockGateLocator for PIT {
    open spec fn spec_location(&self) -> ClockGateLocation {
        ClockGateLocation { offset: 1, gates: &[6] }
    }

    fn location(&self) -> (r: ClockGateLocation) {
        ClockGateLocation { offset: 1, gates: &[6] }
    }
}

/// The periodic clock
pub struct PerClock<P, G>(PhantomData<(P, G)>);

impl<P, G> PerClock<P, G> {
    pub fn new() -> Self {
        PerClock(PhantomData)
    }

    /// Returns the configured periodic clock frequency
    ///
    /// The frequency may depend on the IPG clock, which the ARM clock
    /// registers of `handle` describe.
    pub fn frequency(&self, handle: &Handle) -> (r: u32)
        ensures
            r == spec_frequency(*handle),
    {
        frequency(handle)
    }

    /// Returns the periodic clock frequency if the periodic clock runs on the
    /// crystal oscillator, or `None` if it runs on the IPG clock
    pub fn try_frequency(&self, handle: &Handle) -> (r: Option<u32>)
        ensures
            r == if spec_selection(handle.cscmr1) == Selection::Oscillator {
                Some(spec_frequency(*handle))
            } else {
                None
            },
    {
        if self.selection(handle) == Selection::Oscillator {
            Some(frequency(handle))
        } else {
            None
        }
    }

    /// Returns the periodic clock selection
    pub fn selection(&self, handle: &Handle) -> (r: Selection)
        ensures
            r == spec_selection(handle.cscmr1),
    {
        selection(handle)
    }
}

impl<P, G: Instance<Inst = GPT>> PerClock<P, G> {
    /// Returns the clock gate setting for the GPT
    pub fn clock_gate_gpt(&self, handle: &Handle, gpt: &G) -> (r: ClockGate)
        requires
            handle.wf(),
        ensures
            r == spec_gate_setting(*handle, gpt.spec_instance().spec_location()),
    {
        get_clock_gate::<G>(handle, gpt.instance()).unwrap()
    }

    /// Set the clock gate for the GPT
    pub fn set_clock_gate_gpt(&mut self, handle: &mut Handle, gpt: &mut G, gate: ClockGate)
        requires
            old(handle).wf(),
        ensures
            final(handle).wf(),
            final(handle).ccgr@ == spec_gate_words::<G>(
                old(handle).ccgr@,
                old(gpt).spec_instance(),
                gate,
            ),
            *final(handle) == (Handle { ccgr: final(handle).ccgr, ..*old(handle) }),
            *final(gpt) == *old(gpt),
    {
        set_clock_gate::<G>(handle, gpt.instance(), gate);
    }
}

impl<P: Instance<Inst = PIT>, G> PerClock<P, G> {
    /// Returns the clock gate setting for the PIT
    pub fn clock_gate_pit(&self, handle: &Handle, pit: &P) -> (r: ClockGate)
        requires
            handle.wf(),
        ensures
            r == spec_gate_setting(*handle, pit.spec_instance().spec_location()),
    {
        get_clock_gate::<P>(handle, pit.instance()).unwrap()
    }

    /// Set the clock gate for the PIT
    pub fn set_clock_gate_pit(&mut self, handle: &mut Handle, pit: &mut P, gate: ClockGate)
        requires
            old(handle).wf(),
        ensures
            final(handle).wf(),
            final(handle).ccgr@ == spec_gate_words::<P>(
                old(handle).ccgr@,
                old(pit).spec_instance(),
                gate,
            ),
            *final(handle) == (Handle { ccgr: final(handle).ccgr, ..*old(handle) }),
            *final(pit) == *old(pit),
    {
        set_clock_gate::<P>(handle, pit.instance(), gate);
    }
}

/// The clock gate words after the GPT and PIT clock gates that `G` and `P`
/// accept are set to off.
pub open spec fn spec_gates_off<P: Instance<Inst = PIT>, G: Instance<Inst = GPT>>(
    words: Seq<u32>,
) -> Seq<u32> {
    let w = spec_gate_words::<G>(words, GPT::GPT1, ClockGate::Off);
    let w = spec_gate_words::<G>(w, GPT::GPT2, ClockGate::Off);
    spec_gate_words::<P>(w, PIT, ClockGate::Off)
}

impl<P: Instance<Inst = PIT>, G: Instance<Inst = GPT>> Disabled<PerClock<P, G>> {
    /// Enable the periodic clock root, specifying the clock divider
    ///
    /// The divider should be between [1, 64]. The function will treat a 0 as 1,
    /// and anything greater than 64 as 64.
    ///
    /// When `enable_selection_divider` returns, all GPT and PIT clock gates will
    /// be set to off.
    pub fn enable_selection_divider(
        self,
        handle: &mut Handle,
        selection: Selection,
        divider: u32,
    ) -> (r: PerClock<P, G>)
        requires
            old(handle).wf(),
        ensures
            final(handle).wf(),
            final(handle).ccgr@ == spec_gates_off::<P, G>(old(handle).ccgr@),
            *final(handle) == (Handle {
                ccgr: final(handle).ccgr,
                cscmr1: spec_configure(old(handle).cscmr1, selection, divider),
                ..*old(handle)
            }),
    {
        set_clock_gate::<G>(handle, GPT::GPT1, ClockGate::Off);
        set_clock_gate::<G>(handle, GPT::GPT2, ClockGate::Off);
        set_clock_gate::<P>(handle, PIT, ClockGate::Off);
        configure(handle, selection, divider);
        self.0
    }

    /// Enable the periodic clock root with a default divider. The default
    /// divider will result in a periodic clock frequency of **1MHz** from the
    /// crystal oscillator.
    ///
    /// When `enable` returns, all GPT and PIT clock gates will be set to off.
    pub fn enable(self, handle: &mut Handle) -> (r: PerClock<P, G>)
        requires
            old(handle).wf(),
        ensures
            final(handle).wf(),
            final(handle).ccgr@ == spec_gates_off::<P, G>(old(handle).ccgr@),
            *final(handle) == (Handle {
                ccgr: final(handle).ccgr,
                cscmr1: spec_configure(
                    old(handle).cscmr1,
                    Selection::Oscillator,
                    DEFAULT_CLOCK_DIVIDER,
                ),
                ..*old(handle)
            }),
    {
        self.enable_selection_divider(handle, Selection::Oscillator, DEFAULT_CLOCK_DIVIDER)
    }
}

/// The periodic clock root register, CSCMR1: PERCLK_PODF and PERCLK_CLK_SEL
pub open spec fn spec_cscmr1() -> Register {
    Register { divider: Field::spec_new(0, 0x3F), select: Field::spec_new(6, 0x01) }
}

fn cscmr1() -> (r: Register)
    ensures
        r == spec_cscmr1(),
        r.wf(),
{
    Register::new(Field::new(0, 0x3F), Field::new(6, 0x01))
}

/// The value of PERCLK_CLK_SEL that selects `selection`.
pub open spec fn spec_selection_bits(selection: Selection) -> u32 {
    match selection {
        Selection::Oscillator => 1,
        Selection::IPG => 0,
    }
}

/// CSCMR1 after the periodic clock root is configured.
pub open spec fn spec_configure(word: u32, selection: Selection, divider: u32) -> u32 {
    spec_cscmr1().spec_set(
        word,
        (spec_clamp(divider, 1, MAX_DIVIDER) - 1) as u32,
        spec_selection_bits(selection),
    )
}

/// The selection that CSCMR1 holds when it holds `word`.
pub open spec fn spec_selection(word: u32) -> Selection {
    if spec_cscmr1().select.spec_read(word) == 1 {
        Selection::Oscillator
    } else {
        Selection::IPG
    }
}

/// The periodic clock frequency that the registers of `h` describe: the
/// selected source divided by the divider.
pub open spec fn spec_frequency(h: Handle) -> u32 {
    let divider = spec_cscmr1().divider.spec_read(h.cscmr1) + 1;
    match spec_selection(h.cscmr1) {
        Selection::IPG => (arm::spec_frequency(h).1.0 as int / divider) as u32,
        Selection::Oscillator => (OSCILLATOR_FREQUENCY_HZ as int / divider) as u32,
    }
}

/// Configure the periodic clock root
///
/// Configure will **not** disable peripheral clock gates. You should disable
/// clock gates yourself before calling this function.
///
/// The divider should be between [1, 64]. The function will treat a 0 as 1,
/// and anything greater than 64 as 64.
pub fn configure(handle: &mut Handle, selection: Selection, divider: u32)
    ensures
        *final(handle) == (Handle {
            cscmr1: spec_configure(old(handle).cscmr1, selection, divider),
            ..*old(handle)
        }),
{
    configure_(selection, divider, &mut handle.cscmr1);
}

fn configure_(selection: Selection, divider: u32, mem: &mut u32)
    ensures
        *final(mem) == spec_configure(*old(mem), selection, divider),
{
    let selection: u32 = match selection {
        Selection::Oscillator => 1,
        Selection::IPG => 0,
    };
    let divider = if divider > MAX_DIVIDER {
        MAX_DIVIDER
    } else if divider < 1 {
        1
    } else {
        divider
    };
    cscmr1().set(mem, divider.saturating_sub(1), selection);
}

/// Returns the periodic clock frequency
pub fn frequency(handle: &Handle) -> (r: u32)
    ensures
        r == spec_frequency(*handle),
{
    let w = handle.cscmr1;
    assert((w & (0x3Fu32 << 0u32)) >> 0u32 <= 0x3F) by (bit_vector);
    let divider = cscmr1().divider(&handle.cscmr1) + 1;
    match selection_(&handle.cscmr1) {
        Selection::IPG => arm::timings(handle).ipg_hz() / divider,
        Selection::Oscillator => OSCILLATOR_FREQUENCY_HZ / divider,
    }
}

/// Returns the periodic clock selection
pub fn selection(handle: &Handle) -> (r: Selection)
    ensures
        r == spec_selection(handle.cscmr1),
{
    selection_(&handle.cscmr1)
}

fn selection_(mem: &u32) -> (r: Selection)
    ensures
        r == spec_selection(*mem),
{
    let w = *mem;
    assert((w & (0x01u32 << 6u32)) >> 6u32 <= 1) by (bit_vector);
    if cscmr1().selection(mem) == 1 {
        Selection::Oscillator
    } else {
        Selection::IPG
    }
}

/// After the periodic clock root is configured, it holds the selection, and
/// the periodic clock runs at the selected source divided by `divider`
/// limited to 1..=64.
pub proof fn lemma_configure_then_frequency(h: Handle, selection: Selection, divider: u32)
    ensures
        ({
            let after = Handle { cscmr1: spec_configure(h.cscmr1, selection, divider), ..h };
            &&& spec_selection(after.cscmr1) == selection
            &&& spec_frequency(after) == match selection {
                Selection::IPG => arm::spec_frequency(h).1.0 / spec_clamp(divider, 1, MAX_DIVIDER),
                Selection::Oscillator => OSCILLATOR_FREQUENCY_HZ / spec_clamp(
                    divider,
                    1,
                    MAX_DIVIDER,
                ),
            }
        }),
{
    let d = (spec_clamp(divider, 1, MAX_DIVIDER) - 1) as u32;
    let s = spec_selection_bits(selection);
    assert((0x3Fu32 << 0u32) >> 0u32 == 0x3F && (0x01u32 << 6u32) >> 6u32 == 0x01 && (0x3Fu32
        << 0u32) & (0x01u32 << 6u32) == 0) by (bit_vector);
    assert(d & 0x3F == d && s & 0x01 == s) by (bit_vector)
        requires
            d <= 63,
            s <= 1,
    ;
    lemma_set_read(spec_cscmr1(), h.cscmr1, 0, 0x3F, 6, 0x01, d, s);
}

} // verus!
