//! The CCM register space
//!
//! [`Handle`] holds the words of the CCM registers that this driver reads and
//! writes. Every operation of the driver is stated, and runs, against a
//! `Handle`. On hardware, the same operations are carried out by reading the
//! registers into a `Handle`, or by performing a list of [`Step`]s in order,
//! waiting where a step asks for it.
use vstd::prelude::*;

use crate::gate::{gate_bits, GATES_PER_REGISTER};
use crate::register::Field;

verus! {

/// Number of clock gate registers (CCGR0 through CCGR7)
pub const CLOCK_GATE_REGISTERS: usize = 8;

/// A CCM register that a [`Step`] can write
#[derive(Clone, Copy, PartialEq, Eq, Debug)]
pub enum Reg {
    /// ARM clock root register (CACRR)
    Cacrr,
    /// Bus clock divider register (CBCDR)
    Cbcdr,
    /// Bus clock multiplexer register (CBCMR)
    Cbcmr,
    /// Serial clock multiplexer register 1 (CSCMR1)
    Cscmr1,
    /// Serial clock divider register 1 (CSCDR1)
    Cscdr1,
    /// Serial clock divider register 2 (CSCDR2)
    Cscdr2,
    /// ARM PLL control register (CCM_ANALOG_PLL_ARM)
    PllArm,
}

impl Reg {
    pub open spec fn spec_address(self) -> u32 {
        match self {
            Reg::Cacrr => 0x400F_C010,
            Reg::Cbcdr => 0x400F_C014,
            Reg::Cbcmr => 0x400F_C018,
            Reg::Cscmr1 => 0x400F_C01C,
            Reg::Cscdr1 => 0x400F_C024,
            Reg::Cscdr2 => 0x400F_C038,
            Reg::PllArm => 0x400D_8000,
        }
    }

    /// The register's physical address
    pub fn address(&self) -> (r: u32)
        ensures
            r == self.spec_address(),
    {
        match self {
            Reg::Cacrr => 0x400F_C010,
            Reg::Cbcdr => 0x400F_C014,
            Reg::Cbcmr => 0x400F_C018,
            Reg::Cscmr1 => 0x400F_C01C,
            Reg::Cscdr1 => 0x400F_C024,
            Reg::Cscdr2 => 0x400F_C038,
            Reg::PllArm => 0x400D_8000,
        }
    }
}

/// Physical address of CCGR0; CCGR `n` follows at `4 * n` bytes
pub const CCGR_BASE: u32 = 0x400F_C068;

/// Physical address of the divider handshake register (CDHIPR)
pub const CDHIPR: u32 = 0x400F_C048;

/// Bit of the ARM PLL control register that is set while the PLL is locked
pub const PLL_ARM_LOCK: u32 = 0x8000_0000;

/// One step of a register sequence
#[derive(Clone, Copy, PartialEq, Eq, Debug)]
pub enum Step {
    /// Clear `field` in the register and write the value in its place
    Modify(Reg, Field, u32),
    /// Write the value into `field`, and zero into every other bit
    WriteZero(Reg, Field, u32),
    /// Wait until every divider and multiplexer handshake has completed
    WaitHandshake,
    /// Wait until the ARM PLL reports lock
    WaitPllLock,
}

impl Step {
    /// A step can be carried out when the field that it writes is valid.
    pub open spec fn wf(self) -> bool {
        match self {
            Step::Modify(_, f, _) => f.wf(),
            Step::WriteZero(_, f, _) => f.wf(),
            _ => true,
        }
    }
}

/// Every step of `steps` can be carried out.
pub open spec fn steps_wf(steps: Seq<Step>) -> bool {
    forall|i: int| 0 <= i < steps.len() ==> (#[trigger] steps[i]).wf()
}

/// The words of the CCM registers
#[derive(Clone, Copy, Debug)]
pub struct Handle {
    /// Clock gate registers CCGR0 through CCGR7
    pub ccgr: [u32; 8],
    pub cacrr: u32,
    pub cbcdr: u32,
    pub cbcmr: u32,
    pub cscmr1: u32,
    pub cscdr1: u32,
    pub cscdr2: u32,
    pub pll_arm: u32,
}

impl Handle {
    /// Every clock gate field holds one of the three settings of a
    /// [`ClockGate`](crate::ClockGate): no field holds the reserved value `0b10`.
    pub open spec fn wf(self) -> bool {
        forall|i: int, g: usize|
            0 <= i < CLOCK_GATE_REGISTERS && g < GATES_PER_REGISTER ==> #[trigger] gate_bits(
                self.ccgr[i],
                g,
            ) != 2
    }

    pub open spec fn spec_register(self, reg: Reg) -> u32 {
        match reg {
            Reg::Cacrr => self.cacrr,
            Reg::Cbcdr => self.cbcdr,
            Reg::Cbcmr => self.cbcmr,
            Reg::Cscmr1 => self.cscmr1,
            Reg::Cscdr1 => self.cscdr1,
            Reg::Cscdr2 => self.cscdr2,
            Reg::PllArm => self.pll_arm,
        }
    }

    pub open spec fn spec_with_register(self, reg: Reg, word: u32) -> Handle {
        match reg {
            Reg::Cacrr => Handle { cacrr: word, ..self },
            Reg::Cbcdr => Handle { cbcdr: word, ..self },
            Reg::Cbcmr => Handle { cbcmr: word, ..self },
            Reg::Cscmr1 => Handle { cscmr1: word, ..self },
            Reg::Cscdr1 => Handle { cscdr1: word, ..self },
            Reg::Cscdr2 => Handle { cscdr2: word, ..self },
            Reg::PllArm => Handle { pll_arm: word, ..self },
        }
    }

    /// The registers after `step`. The register space settles at once: a
    /// wait finds every handshake complete and the PLL locked.
    pub open spec fn spec_step(self, step: Step) -> Handle {
        match step {
            Step::Modify(reg, f, v) => self.spec_with_register(
                reg,
                f.spec_modify(self.spec_register(reg), v),
            ),
            Step::WriteZero(reg, f, v) => self.spec_with_register(reg, f.spec_write_zero(v)),
            Step::WaitHandshake => self,
            Step::WaitPllLock => self,
        }
    }

    /// The registers after each step of `steps`, in order.
    pub open spec fn spec_run(self, steps: Seq<Step>) -> Handle
        decreases steps.len(),
    {
        if steps.len() == 0 {
            self
        } else {
            self.spec_run(steps.drop_last()).spec_step(steps.last())
        }
    }

    /// A register space whose registers all hold zero
    pub fn new() -> (r: Handle)
        ensures
            r.wf(),
            r.ccgr@ == seq![0u32; 8],
            r.cacrr == 0 && r.cbcdr == 0 && r.cbcmr == 0,
            r.cscmr1 == 0 && r.cscdr1 == 0 && r.cscdr2 == 0 && r.pll_arm == 0,
    {
        let r = Handle {
            ccgr: [0u32; 8],
            cacrr: 0,
            cbcdr: 0,
            cbcmr: 0,
            cscmr1: 0,
            cscdr1: 0,
            cscdr2: 0,
            pll_arm: 0,
        };
        proof {
            assert(r.ccgr@ =~= seq![0u32; 8]);
            assert forall|i: int, g: usize|
                0 <= i < CLOCK_GATE_REGISTERS && g < GATES_PER_REGISTER implies #[trigger] gate_bits(
                r.ccgr[i],
                g,
            ) != 2 by {
                let s = crate::gate::shift_of(g);
                assert(r.ccgr[i] == 0);
                assert((0u32 >> s) & 3 == 0) by (bit_vector);
            }
        }
        r
    }

    /// Returns the word of `reg`
    pub fn register(&self, reg: Reg) -> (r: u32)
        ensures
            r == self.spec_register(reg),
    {
        match reg {
            Reg::Cacrr => self.cacrr,
            Reg::Cbcdr => self.cbcdr,
            Reg::Cbcmr => self.cbcmr,
            Reg::Cscmr1 => self.cscmr1,
            Reg::Cscdr1 => self.cscdr1,
            Reg::Cscdr2 => self.cscdr2,
            Reg::PllArm => self.pll_arm,
        }
    }

    /// Stores `word` in `reg`
    pub fn set_register(&mut self, reg: Reg, word: u32)
        ensures
            *final(self) == old(self).spec_with_register(reg, word),
    {
        match reg {
            Reg::Cacrr => self.cacrr = word,
            Reg::Cbcdr => self.cbcdr = word,
            Reg::Cbcmr => self.cbcmr = word,
            Reg::Cscmr1 => self.cscmr1 = word,
            Reg::Cscdr1 => self.cscdr1 = word,
            Reg::Cscdr2 => self.cscdr2 = word,
            Reg::PllArm => self.pll_arm = word,
        }
    }

    /// Carries out one step
    pub fn perform(&mut self, step: &Step)
        requires
            step.wf(),
        ensures
            *final(self) == old(self).spec_step(*step),
    {
        match step {
            Step::Modify(reg, field, value) => {
                let mut word = self.register(*reg);
                field.modify(&mut word, *value);
                self.set_register(*reg, word);
            },
            Step::WriteZero(reg, field, value) => {
                let mut word: u32 = 0;
                field.write_zero(&mut word, *value);
                self.set_register(*reg, word);
            },
            Step::WaitHandshake => {},
            Step::WaitPllLock => {},
        }
    }

    /// Carries out each step of `steps`, in order
    pub fn run(&mut self, steps: &[Step])
        requires
            steps_wf(steps@),
        ensures
            *final(self) == old(self).spec_run(steps@),
    {
        let mut i: usize = 0;
        while i < steps.len()
            invariant
                i <= steps@.len(),
                steps_wf(steps@),
                *self == old(self).spec_run(steps@.take(i as int)),
            decreases steps@.len() - i,
        {
            self.perform(&steps[i]);
            assert(steps@.take(i + 1).drop_last() =~= steps@.take(i as int));
            i = i + 1;
        }
        assert(steps@.take(i as int) =~= steps@);
    }
}

/// Running two sequences one after the other is running their concatenation.
pub proof fn lemma_run_concat(h: Handle, a: Seq<Step>, b: Seq<Step>)
    ensures
        h.spec_run(a + b) == h.spec_run(a).spec_run(b),
    decreases b.len(),
{
    if b.len() == 0 {
        assert(a + b =~= a);
    } else {
        assert((a + b).drop_last() =~= a + b.drop_last());
        lemma_run_concat(h, a, b.drop_last());
    }
}

/// No step writes a clock gate register.
pub proof fn lemma_run_keeps_gates(h: Handle, s: Seq<Step>)
    ensures
        h.spec_run(s).ccgr == h.ccgr,
    decreases s.len(),
{
    if s.len() > 0 {
        lemma_run_keeps_gates(h, s.drop_last());
    }
}

/// Running a sequence with one more step at its end runs that step last.
pub proof fn lemma_run_push(h: Handle, s: Seq<Step>, step: Step)
    ensures
        h.spec_run(s.push(step)) == h.spec_run(s).spec_step(step),
{
    assert(s.push(step).drop_last() =~= s);
}

} // verus!
