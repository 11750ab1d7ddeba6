//! Clock Control Module (CCM) driver for i.MX RT processors
//!
//! `imxrt_ccm` lets you configure clocks, associate peripherals with clock
//! gates, and control peripheral clock gates. It is a lower-level driver,
//! targeted for HAL implementers.
//!
//! Every operation works on a [`Handle`], the words of the CCM registers. The
//! ARM clock switch is also available as a list of register [`Step`]s, to be
//! carried out in order against the hardware.
//!
//! Implement [`Instance`] for your peripheral instances. The clock roots
//! ([`i2c::I2CClock`], [`spi::SPIClock`], [`uart::UARTClock`],
//! [`perclock::PerClock`]) and the [`CCM`] then control the clock gate of an
//! instance when you supply the instance itself.
use vstd::prelude::*;

pub mod arm;
pub mod gate;
pub mod handle;
pub mod i2c;
pub mod perclock;
pub mod register;
mod sealed;
pub mod spi;
pub mod uart;

use crate::gate::{gate_bits, gates_in_range, set_gates, GATES_PER_REGISTER};
use crate::handle::CLOCK_GATE_REGISTERS;
pub use crate::handle::{Handle, Reg, Step};
use crate::i2c::I2CClock;
use crate::perclock::PerClock;
use crate::sealed::Sealed;
use crate::spi::SPIClock;
use crate::uart::UARTClock;

verus! {

/// Crystal oscillator frequency
pub const OSCILLATOR_FREQUENCY_HZ: u32 = 24_000_000;

/// A clock root that is not yet enabled
///
/// Enabling it turns off its clock gates, configures its clock root, and
/// hands back the clock.
pub struct Disabled<T>(pub T);

/// Describes the location of a clock gate field
#[derive(Clone, Copy)]
pub struct ClockGateLocation {
    /// CCGR register offset
    ///
    /// `3` in `CCM_CCGR3[CG7]`
    pub offset: usize,
    /// Clock gate fields
    ///
    /// `&[7]` in `CCM_CCGR3[CG7]`
    pub gates: &'static [usize],
}

impl ClockGateLocation {
    /// The location names a clock gate register and at least one of its gates.
    pub open spec fn wf(self) -> bool {
        &&& self.offset < CLOCK_GATE_REGISTERS
        &&& self.gates@.len() >= 1
        &&& gates_in_range(self.gates@)
    }
}

/// A type that can locate a clock gate
///
/// `ClockGateLocator` is implemented on all structs and enums
/// that describe peripheral instances.
pub trait ClockGateLocator: Copy + PartialEq + Sealed {
    spec fn spec_location(&self) -> ClockGateLocation;

    /// Returns the location of a clock gate
    fn location(&self) -> (r: ClockGateLocation)
        ensures
            r == self.spec_location(),
            r.wf(),
    ;
}

/// A peripheral instance that has a clock gate
///
/// `Instance` lets you associate a peripheral with its clock gate. This lets
/// you control a peripheral's clock gate by supplying the peripheral itself,
/// rather than modifying an arbitrary field in a CCM register.
///
/// Implementers must hold the invariant: the return of `instance`, passed into
/// `is_valid`, must be `true`. If `instance` never returns a variant,
/// `is_valid` should return `false`.
///
/// You should only implement `Instance` on a true i.MX RT peripheral instance.
/// An incorrect implementation will let you control clock gates that should
/// not be associated with the object.
pub trait Instance {
    /// An identifier that describes the instance
    type Inst: ClockGateLocator;

    /// The identifier that `instance` returns. Verified implementations
    /// define it; for others nothing is known of it.
    open spec fn spec_instance(&self) -> Self::Inst {
        vstd::pervasive::arbitrary()
    }

    /// Whether `is_valid` accepts `inst`. Verified implementations define it;
    /// for others nothing is known of it.
    open spec fn spec_is_valid(inst: Self::Inst) -> bool {
        vstd::pervasive::arbitrary()
    }

    /// Returns the peripheral instance identifier
    fn instance(&self) -> (r: Self::Inst)
        ensures
            r == self.spec_instance(),
            Self::spec_is_valid(r),
    ;

    /// Returns `true` if this instance is valid for a particular
    /// implementation
    fn is_valid(inst: Self::Inst) -> (r: bool)
        ensures
            r == Self::spec_is_valid(inst),
    ;
}

/// Returns `Some(inst)` if `inst` is valid for this peripheral, or
/// `None` if `inst` is not valid.
fn check_instance<I: Instance>(inst: I::Inst) -> (r: Option<I::Inst>)
    ensures
        r == if I::spec_is_valid(inst) {
            Some(inst)
        } else {
            None
        },
{
    if I::is_valid(inst) {
        Some(inst)
    } else {
        None
    }
}

/// Describes a clock gate setting
#[derive(Debug, Clone, Copy, PartialEq, Eq, Structural)]
pub enum ClockGate {
    /// Clock is off during all modes
    ///
    /// Stop enter hardware handshake is disabled.
    Off,
    /// Clock is on in run mode, but off in wait and stop modes
    OnlyRun,
    /// Clock is on in all modes, except stop mode
    On,
}

impl ClockGate {
    /// The field value of a setting: `0b00`, `0b01` or `0b11`.
    pub open spec fn spec_bits(self) -> u8 {
        match self {
            ClockGate::Off => 0b00,
            ClockGate::OnlyRun => 0b01,
            ClockGate::On => 0b11,
        }
    }

    /// The setting that the two low bits of `raw` hold; `0b10` is reserved.
    pub open spec fn spec_from_bits(raw: u32) -> ClockGate {
        if raw & 0b11 == 0b00 {
            ClockGate::Off
        } else if raw & 0b11 == 0b01 {
            ClockGate::OnlyRun
        } else {
            ClockGate::On
        }
    }

    /// Returns the field value of this setting
    pub fn bits(self) -> (r: u8)
        ensures
            r == self.spec_bits(),
    {
        match self {
            ClockGate::Off => 0b00,
            ClockGate::OnlyRun => 0b01,
            ClockGate::On => 0b11,
        }
    }

    /// Returns the setting held in the two low bits of `raw`
    pub fn from_u8(raw: u8) -> (r: ClockGate)
        requires
            raw & 0b11 != 0b10,
        ensures
            r == ClockGate::spec_from_bits(raw as u32),
    {
        let low = raw & 0b11;
        assert(low as u32 == (raw as u32) & 0b11 && low <= 3) by (bit_vector)
            requires
                low == raw & 0b11,
        ;
        if low == 0b00 {
            ClockGate::Off
        } else if low == 0b01 {
            ClockGate::OnlyRun
        } else {
            ClockGate::On
        }
    }
}

/// The setting of the first gate at `loc` in the registers of `h`.
pub open spec fn spec_gate_setting(h: Handle, loc: ClockGateLocation) -> ClockGate {
    ClockGate::spec_from_bits(gate_bits(h.ccgr[loc.offset as int], loc.gates@[0]))
}

/// The clock gate words after `gate` is set for `inst`, when `inst` is valid
/// for `I`; unchanged otherwise.
pub open spec fn spec_gate_words<I: Instance>(
    words: Seq<u32>,
    inst: I::Inst,
    gate: ClockGate,
) -> Seq<u32> {
    if I::spec_is_valid(inst) {
        let loc = inst.spec_location();
        words.update(
            loc.offset as int,
            set_gates(words[loc.offset as int], loc.gates@, gate.spec_bits()),
        )
    } else {
        words
    }
}

/// Set the clock gate for a peripheral instance
///
/// `set_clock_gate` does nothing if the instance is invalid.
pub fn set_clock_gate<I: Instance>(handle: &mut Handle, inst: I::Inst, gate: ClockGate)
    requires
        old(handle).wf(),
    ensures
        final(handle).wf(),
        final(handle).ccgr@ == spec_gate_words::<I>(old(handle).ccgr@, inst, gate),
        *final(handle) == (Handle { ccgr: final(handle).ccgr, ..*old(handle) }),
{
    if let Some(inst) = check_instance::<I>(inst) {
        let loc = inst.location();
        let mut word = handle.ccgr[loc.offset];
        let bits = gate.bits();
        gate::set_clock_gate(&mut word, loc.gates, bits);
        let ghost before = *handle;
        handle.ccgr[loc.offset] = word;
        proof {
            assert(handle.ccgr@ =~= spec_gate_words::<I>(before.ccgr@, inst, gate));
            assert forall|i: int, g: usize|
                0 <= i < CLOCK_GATE_REGISTERS && g < GATES_PER_REGISTER implies #[trigger] gate_bits(
                handle.ccgr[i],
                g,
            ) != 2 by {
                if i == loc.offset {
                    assert(3u32 & (bits as u32) != 2) by (bit_vector)
                        requires
                            bits == 0 || bits == 1 || bits == 3,
                    ;
                    assert(gate_bits(before.ccgr[i], g) != 2);
                } else {
                    assert(handle.ccgr[i] == before.ccgr[i]);
                }
            }
        }
    }
}

/// Setting a clock gate to a setting a second time leaves the clock gate
/// registers as the first time left them.
pub proof fn lemma_set_clock_gate_idempotent<I: Instance>(
    words: Seq<u32>,
    inst: I::Inst,
    gate: ClockGate,
)
    requires
        words.len() == CLOCK_GATE_REGISTERS,
        inst.spec_location().wf(),
    ensures
        spec_gate_words::<I>(spec_gate_words::<I>(words, inst, gate), inst, gate)
            == spec_gate_words::<I>(words, inst, gate),
{
    if I::spec_is_valid(inst) {
        let loc = inst.spec_location();
        let o = loc.offset as int;
        let once = spec_gate_words::<I>(words, inst, gate);
        crate::gate::lemma_set_gates_idempotent(words[o], loc.gates@, gate.spec_bits());
        assert(spec_gate_words::<I>(once, inst, gate) =~= once);
    }
}

/// Returns the clock gate setting for a peripheral instance
///
/// `get_clock_gate` returns `None` if the instance is invalid.
pub fn get_clock_gate<I: Instance>(handle: &Handle, inst: I::Inst) -> (r: Option<ClockGate>)
    requires
        handle.wf(),
    ensures
        r == if I::spec_is_valid(inst) {
            Some(spec_gate_setting(*handle, inst.spec_location()))
        } else {
            None
        },
{
    match check_instance::<I>(inst) {
        Some(inst) => {
            let loc = inst.location();
            let raw = gate::get_clock_gate(&handle.ccgr[loc.offset], loc.gates[0]);
            assert(gate_bits(handle.ccgr[loc.offset as int], loc.gates@[0]) != 2);
            assert(raw & 0b11 != 0b10 && (raw as u32) & 0b11 == raw as u32) by (bit_vector)
                requires
                    raw as u32 != 2,
                    raw <= 3,
            ;
            Some(ClockGate::from_u8(raw))
        },
        None => None,
    }
}

/// Peripheral instance identifier for DCDC
#[derive(Debug, Clone, Copy, PartialEq, Eq, Structural)]
pub struct DCDC;

impl Sealed for DCDC {}

impl ClockGateLocator for DCDC {
    open spec fn spec_location(&self) -> ClockGateLocation {
        ClockGateLocation { offset: 6, gates: &[3] }
    }

    fn location(&self) -> (r: ClockGateLocation) {
        ClockGateLocation { offset: 6, gates: &[3] }
    }
}

/// Peripheral instance identifier for DMA
#[derive(Debug, Clone, Copy, PartialEq, Eq, Structural)]
pub struct DMA;

impl Sealed for DMA {}

impl ClockGateLocator for DMA {
    open spec fn spec_location(&self) -> ClockGateLocation {
        ClockGateLocation { offset: 5, gates: &[3] }
    }

    fn location(&self) -> (r: ClockGateLocation) {
        ClockGateLocation { offset: 5, gates: &[3] }
    }
}

/// Peripheral instance identifier for ADCs
#[derive(Debug, Clone, Copy, PartialEq, Eq, Structural)]
pub enum ADC {
    ADC1,
    ADC2,
}

impl Sealed for ADC {}

impl ClockGateLocator for ADC {
    open spec fn spec_location(&self) -> ClockGateLocation {
        match self {
            ADC::ADC1 => ClockGateLocation { offset: 1, gates: &[8] },
            ADC::ADC2 => ClockGateLocation { offset: 1, gates: &[4] },
        }
    }

    fn location(&self) -> (r: ClockGateLocation) {
        let gates: &'static [usize] = match self {
            ADC::ADC1 => &[8],
            ADC::ADC2 => &[4],
        };
        ClockGateLocation { offset: 1, gates }
    }
}

/// Peripheral instance identifier for PWM
#[derive(Debug, Clone, Copy, PartialEq, Eq, Structural)]
pub enum PWM {
    PWM1,
    PWM2,
    PWM3,
    PWM4,
}

impl Sealed for PWM {}

impl ClockGateLocator for PWM {
    open spec fn spec_location(&self) -> ClockGateLocation {
        match self {
            PWM::PWM1 => ClockGateLocation { offset: 4, gates: &[8] },
            PWM::PWM2 => ClockGateLocation { offset: 4, gates: &[9] },
            PWM::PWM3 => ClockGateLocation { offset: 4, gates: &[10] },
            PWM::PWM4 => ClockGateLocation { offset: 4, gates: &[11] },
        }
    }

    fn location(&self) -> (r: ClockGateLocation) {
        let gates: &'static [usize] = match self {
            PWM::PWM1 => &[8],
            PWM::PWM2 => &[9],
            PWM::PWM3 => &[10],
            PWM::PWM4 => &[11],
        };
        ClockGateLocation { offset: 4, gates }
    }
}

/// Correlates an instance type to a CCM clock root
///
/// If your usage doesn't require a clock, fill in an empty
/// tuple, `()`, or any type that _doesn't_ implement [`Instance`].
pub trait Clocks {
    /// PIT instance
    type PIT;
    /// GPT instance
    type GPT;
    /// UART instance
    type UART;
    /// SPI instance
    type SPI;
    /// I2C instance
    type I2C;
}

/// The clock control module (CCM)
///
/// The CCM holds the clock roots. Holding it, or a mutable reference to one of
/// its clock roots, is what lets a caller change the registers of a
/// [`Handle`] that the clock roots control. Construct one CCM only.
#[non_exhaustive]
pub struct CCM<C: Clocks> {
    /// The periodic clock handle
    ///
    /// `perclock` is used for timers, including GPT and PIT timers
    perclock: PerClock<C::PIT, C::GPT>,
    /// The UART clock
    uart_clock: UARTClock<C::UART>,
    /// The SPI clock
    spi_clock: SPIClock<C::SPI>,
    /// The I2C clock
    i2c_clock: I2CClock<C::I2C>,
}

impl<C: Clocks> CCM<C> {
    /// Construct a new CCM peripheral
    ///
    /// This should only be called once: the CCM stands for the one clock
    /// control module of the processor.
    pub fn new() -> Self {
        CCM {
            perclock: PerClock::new(),
            uart_clock: UARTClock::new(),
            spi_clock: SPIClock::new(),
            i2c_clock: I2CClock::new(),
        }
    }

    /// Returns the clock gate setting for the DCDC buck converter
    pub fn clock_gate_dcdc<D: Instance<Inst = DCDC>>(&self, handle: &Handle, dcdc: &D) -> (r:
        ClockGate)
        requires
            handle.wf(),
        ensures
            r == spec_gate_setting(*handle, dcdc.spec_instance().spec_location()),
    {
        get_clock_gate::<D>(handle, dcdc.instance()).unwrap()
    }

    /// Set the clock gate for the DCDC buck converter
    pub fn set_clock_gate_dcdc<D: Instance<Inst = DCDC>>(
        &mut self,
        handle: &mut Handle,
        dcdc: &mut D,
        gate: ClockGate,
    )
        requires
            old(handle).wf(),
        ensures
            final(handle).wf(),
            final(handle).ccgr@ == spec_gate_words::<D>(
                old(handle).ccgr@,
                old(dcdc).spec_instance(),
                gate,
            ),
            *final(handle) == (Handle { ccgr: final(handle).ccgr, ..*old(handle) }),
            *final(dcdc) == *old(dcdc),
    {
        set_clock_gate::<D>(handle, dcdc.instance(), gate);
    }

    /// Returns the clock gate setting for the DMA controller
    pub fn clock_gate_dma<D: Instance<Inst = DMA>>(&self, handle: &Handle, dma: &D) -> (r:
        ClockGate)
        requires
            handle.wf(),
        ensures
            r == spec_gate_setting(*handle, dma.spec_instance().spec_location()),
    {
        get_clock_gate::<D>(handle, dma.instance()).unwrap()
    }

    /// Set the clock gate for the DMA controller
    pub fn set_clock_gate_dma<D: Instance<Inst = DMA>>(
        &mut self,
        handle: &mut Handle,
        dma: &mut D,
        gate: ClockGate,
    )
        requires
            old(handle).wf(),
        ensures
            final(handle).wf(),
            final(handle).ccgr@ == spec_gate_words::<D>(
                old(handle).ccgr@,
                old(dma).spec_instance(),
                gate,
            ),
            *final(handle) == (Handle { ccgr: final(handle).ccgr, ..*old(handle) }),
            *final(dma) == *old(dma),
    {
        set_clock_gate::<D>(handle, dma.instance(), gate);
    }

    /// Returns the clock gate setting for the ADC
    pub fn clock_gate_adc<A: Instance<Inst = ADC>>(&self, handle: &Handle, adc: &A) -> (r:
        ClockGate)
        requires
            handle.wf(),
        ensures
            r == spec_gate_setting(*handle, adc.spec_instance().spec_location()),
    {
        get_clock_gate::<A>(handle, adc.instance()).unwrap()
    }

    /// Set the clock gate for the ADC peripheral
    pub fn set_clock_gate_adc<A: Instance<Inst = ADC>>(
        &mut self,
        handle: &mut Handle,
        adc: &mut A,
        gate: ClockGate,
    )
        requires
            old(handle).wf(),
        ensures
            final(handle).wf(),
            final(handle).ccgr@ == spec_gate_words::<A>(
                old(handle).ccgr@,
                old(adc).spec_instance(),
                gate,
            ),
            *final(handle) == (Handle { ccgr: final(handle).ccgr, ..*old(handle) }),
            *final(adc) == *old(adc),
    {
        set_clock_gate::<A>(handle, adc.instance(), gate);
    }

    /// Returns the clock gate setting for the PWM
    pub fn clock_gate_pwm<P: Instance<Inst = PWM>>(&self, handle: &Handle, pwm: &P) -> (r:
        ClockGate)
        requires
            handle.wf(),
        ensures
            r == spec_gate_setting(*handle, pwm.spec_instance().spec_location()),
    {
        get_clock_gate::<P>(handle, pwm.instance()).unwrap()
    }

    /// Set the clock gate for the PWM peripheral
    pub fn set_clock_gate_pwm<P: Instance<Inst = PWM>>(
        &mut self,
        handle: &mut Handle,
        pwm: &mut P,
        gate: ClockGate,
    )
        requires
            old(handle).wf(),
        ensures
            final(handle).wf(),
            final(handle).ccgr@ == spec_gate_words::<P>(
                old(handle).ccgr@,
                old(pwm).spec_instance(),
                gate,
            ),
            *final(handle) == (Handle { ccgr: final(handle).ccgr, ..*old(handle) }),
            *final(pwm) == *old(pwm),
    {
        set_clock_gate::<P>(handle, pwm.instance(), gate);
    }

    /// Set the ARM clock frequency, returning the new ARM and IPG clock frequency
    ///
    /// Changing this at runtime will affect anything that's using the ARM or IPG clocks
    /// as inputs.
    pub fn set_frequency_arm(&mut self, handle: &mut Handle, hz: u32) -> (r: (
        arm::ARMClock,
        arm::IPGClock,
    ))
        ensures
            *final(handle) == old(handle).spec_run(arm::spec_set_frequency_steps(hz)),
            final(handle).ccgr == old(handle).ccgr,
            r == arm::spec_frequency(*final(handle)),
            r == (arm::ARMClock(arm::Timings::spec_target(hz).arm_hz), arm::IPGClock(
                arm::Timings::spec_target(hz).spec_ipg_hz(),
            )),
    {
        arm::set_frequency(handle, hz)
    }

    /// Returns the ARM and IPG clock frequencies
    pub fn frequency_arm(&self, handle: &Handle) -> (r: (arm::ARMClock, arm::IPGClock))
        ensures
            r == arm::spec_frequency(*handle),
    {
        arm::frequency(handle)
    }
}

impl<C: Clocks> CCM<C> where C::PIT: Instance<Inst = perclock::PIT>, C::GPT: Instance<
    Inst = perclock::GPT,
> {
    /// Returns a reference to the periodic clock
    pub fn perclock(&self) -> &PerClock<C::PIT, C::GPT> {
        &self.perclock
    }

    /// Returns a mutable reference to the periodic clock
    pub fn perclock_mut(&mut self) -> &mut PerClock<C::PIT, C::GPT> {
        &mut self.perclock
    }
}

impl<C: Clocks> CCM<C> where C::I2C: Instance<Inst = i2c::I2C> {
    /// Returns a reference to the I2C clock
    pub fn i2c_clock(&self) -> &I2CClock<C::I2C> {
        &self.i2c_clock
    }

    /// Returns a mutable reference to the I2C clock
    pub fn i2c_clock_mut(&mut self) -> &mut I2CClock<C::I2C> {
        &mut self.i2c_clock
    }
}

impl<C: Clocks> CCM<C> where C::SPI: Instance<Inst = spi::SPI> {
    /// Returns a reference to the SPI clock
    pub fn spi_clock(&self) -> &SPIClock<C::SPI> {
        &self.spi_clock
    }

    /// Returns a mutable reference to the SPI clock
    pub fn spi_clock_mut(&mut self) -> &mut SPIClock<C::SPI> {
        &mut self.spi_clock
    }
}

impl<C: Clocks> CCM<C> where C::UART: Instance<Inst = uart::UART> {
    /// Returns a reference to the UART clock
    pub fn uart_clock(&self) -> &UARTClock<C::UART> {
        &self.uart_clock
    }

    /// Returns a mutable reference to the UART clock
    pub fn uart_clock_mut(&mut self) -> &mut UARTClock<C::UART> {
        &mut self.uart_clock
    }
}

} // verus!
