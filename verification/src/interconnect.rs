//! The frame driver: steps until a budget of T-states is used, then a
//! poll for interrupts.

use vstd::prelude::*;
use crate::cpu::Cpu;
use crate::machine::Machine;
use crate::step::Trap;

verus! {

/// The T-states that a frame runs for before it polls for interrupts.
pub const FRAME_BUDGET: usize = 25_600;

/// The processor and a count of the frames it has run.
pub struct Interconnect {
    pub cpu: Cpu,
    pub frame_count: u32,
}

impl Machine {
    /// The T-states that the step from this machine takes, as the cycle
    /// counter shows them, the counter wrapping.
    #[verifier::opaque]
    pub open spec fn step_cost(self) -> nat {
        self.step().cycles.wrapping_sub(self.cycles) as nat
    }

    /// The machine after the step from this one.
    #[verifier::opaque]
    pub open spec fn after_step(self) -> Machine {
        self.step()
    }

    /// The machine at the end of the steps of a frame that has used
    /// `executed` T-states so far.
    ///
    /// Steps run until more than [`FRAME_BUDGET`] T-states are used. The
    /// frame also ends on an undefined instruction, whose opcode is latched.
    /// (It would end after a step that took no time; there is none.)
    pub open spec fn run_frame(self, executed: nat) -> Machine
        decreases
            (if executed <= FRAME_BUDGET {
                FRAME_BUDGET + 1 - executed
            } else {
                0
            }),
    {
        if executed > FRAME_BUDGET {
            self
        } else if !self.step_known() {
            self.fetch()
        } else if self.step_cost() == 0 {
            self.after_step()
        } else {
            self.after_step().run_frame(executed + self.step_cost())
        }
    }

    /// Whether the steps of a frame end on an undefined instruction.
    pub open spec fn frame_traps(self, executed: nat) -> bool
        decreases
            (if executed <= FRAME_BUDGET {
                FRAME_BUDGET + 1 - executed
            } else {
                0
            }),
    {
        if executed > FRAME_BUDGET {
            false
        } else if !self.step_known() {
            true
        } else if self.step_cost() == 0 {
            false
        } else {
            self.after_step().frame_traps(executed + self.step_cost())
        }
    }

    /// The machine after a frame: its steps and, unless they ended on an
    /// undefined instruction, one poll for interrupts.
    pub open spec fn frame(self) -> Machine {
        if self.frame_traps(0) {
            self.run_frame(0)
        } else {
            self.run_frame(0).poll()
        }
    }

    /// Whether a frame fails: its steps end on an undefined instruction,
    /// or its poll has to run an undefined one.
    pub open spec fn frame_fails(self) -> bool {
        self.frame_traps(0) || self.run_frame(0).poll_traps()
    }

    /// What a frame that fails reports: the undefined instruction that its
    /// steps met, or the one that its poll had to run.
    pub open spec fn frame_trap(self) -> Trap {
        let m = self.run_frame(0);
        if self.frame_traps(0) {
            m.trap(m.opcode_at_pc())
        } else {
            m.enter_irq().adv_cycles(11).trap(m.int.vector as u16)
        }
    }
}

impl Cpu {
    /// Runs the instruction at the program counter and tells how many
    /// T-states it took.
    pub fn timed_step(&mut self) -> (r: (Result<(), Trap>, usize))
        ensures
            r.0.is_ok() == old(self)@.step_known(),
            r.0.is_ok() ==> final(self)@ == old(self)@.after_step() && r.1 == old(
                self,
            )@.step_cost() && 4 <= r.1 <= 23,
            r.0.is_err() ==> final(self)@ == old(self)@.fetch(),
            r.0 matches Err(t) ==> t == final(self)@.trap(
                final(self)@.read8(final(self).reg.pc) as u16,
            ),
    {
        let start_cycles = self.cycles;
        proof {
            reveal(Machine::step_cost);
            reveal(Machine::after_step);
            if self@.step_known() {
                crate::laws::law_step_time(self@);
            }
        }
        let res = self.execute();
        let spent = self.cycles.wrapping_sub(start_cycles);
        (res, spent)
    }
}

impl Interconnect {
    /// A blank processor that has run no frame.
    pub fn default() -> (i: Interconnect)
        ensures
            i.cpu@ == Machine::blank(),
            i.frame_count == 0,
    {
        Interconnect { cpu: Cpu::default(), frame_count: 0 }
    }

    /// Runs the instruction at the program counter, as the harness for
    /// CP/M test programs does between its own checks.
    pub fn run_tests(&mut self) -> (res: Result<(), Trap>)
        ensures
            res.is_ok() == old(self).cpu@.step_known(),
            res.is_ok() ==> final(self).cpu@ =~= old(self).cpu@.step(),
            res.is_err() ==> final(self).cpu@ =~= old(self).cpu@.fetch(),
            res matches Err(t) ==> t == old(self).cpu@.trap(old(self).cpu@.opcode_at_pc()),
            final(self).frame_count == old(self).frame_count,
    {
        self.cpu.execute()
    }

    /// Runs the steps of a frame.
    pub fn run_steps(&mut self) -> (res: Result<(), Trap>)
        ensures
            res.is_err() == old(self).cpu@.frame_traps(0),
            final(self).cpu@ == old(self).cpu@.run_frame(0),
            final(self).frame_count == old(self).frame_count,
            res matches Err(t) ==> t == final(self).cpu@.trap(final(self).cpu@.opcode_at_pc()),
    {
        let mut cycles_executed: usize = 0;
        let mut res: Result<(), Trap> = Ok(());
        while cycles_executed <= FRAME_BUDGET
            invariant
                self.frame_count == old(self).frame_count,
                res.is_ok() ==> old(self).cpu@.run_frame(0) == self.cpu@.run_frame(
                    cycles_executed as nat,
                ) && old(self).cpu@.frame_traps(0) == self.cpu@.frame_traps(cycles_executed as nat),
                res.is_err() ==> cycles_executed > FRAME_BUDGET && old(self).cpu@.run_frame(0)
                    == self.cpu@ && old(self).cpu@.frame_traps(0),
                res matches Err(t) ==> t == self.cpu@.trap(
                    self.cpu@.read8(self.cpu.reg.pc) as u16,
                ),
            decreases
                (if cycles_executed <= FRAME_BUDGET {
                    FRAME_BUDGET + 1 - cycles_executed
                } else {
                    0
                }),
        {
            let ghost before = self.cpu@;
            let ghost used = cycles_executed as nat;
            let ghost total: nat = used + self.cpu@.step_cost();
            let (step, spent) = self.cpu.timed_step();
            res = step;
            if res.is_err() {
                cycles_executed = FRAME_BUDGET + 1;
            } else {
                cycles_executed = cycles_executed + spent;
            }
            proof {
                let now = self.cpu@;
                if res.is_ok() {
                    assert(before.run_frame(used) == if spent == 0 {
                        now
                    } else {
                        now.run_frame(total)
                    });
                    assert(before.frame_traps(used) == if spent == 0 {
                        false
                    } else {
                        now.frame_traps(total)
                    });
                    if spent != 0 && cycles_executed != total {
                        assert(total > FRAME_BUDGET);
                        assert(now.run_frame(total) == now);
                        assert(!now.frame_traps(total));
                    }
                    assert(now.run_frame(cycles_executed as nat) == before.run_frame(used));
                    assert(now.frame_traps(cycles_executed as nat) == before.frame_traps(used));
                } else {
                    assert(before.run_frame(used) == now);
                    assert(before.frame_traps(used));
                }
            }
        }
        res
    }

    /// Runs the steps of one frame and then polls for interrupts once;
    /// returns the number of frames run so far.
    ///
    /// A frame that fails is not counted and reports the trap.
    pub fn execute_cpu(&mut self) -> (res: Result<u32, Trap>)
        requires
            old(self).frame_count < u32::MAX,
        ensures
            res.is_err() == old(self).cpu@.frame_fails(),
            final(self).cpu@ =~= old(self).cpu@.frame(),
            res matches Ok(n) ==> n == old(self).frame_count + 1 && final(self).frame_count == n,
            res.is_err() ==> final(self).frame_count == old(self).frame_count,
            res matches Err(t) ==> t == old(self).cpu@.frame_trap(),
    {
        match self.run_steps() {
            Ok(()) => {},
            Err(trap) => {
                return Err(trap);
            },
        }
        match self.cpu.poll_interrupt() {
            Ok(()) => {},
            Err(trap) => {
                return Err(trap);
            },
        }
        self.frame_count = self.frame_count + 1;
        Ok(self.frame_count)
    }
}

} // verus!
