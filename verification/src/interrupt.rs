//! Acceptance of the non-maskable and the maskable interrupt.

use vstd::prelude::*;
use crate::bits::{make_word, word};
use crate::cpu::{Cpu, Interrupt, Registers};
use crate::machine::Machine;
use crate::step::Trap;

verus! {

impl Machine {
    /// The machine as it leaves the halted state: the halt latch is
    /// cleared and the program counter moves past the `HALT` it stood on.
    /// A machine that is not halted stays as it is.
    pub open spec fn wake(self) -> Machine {
        if self.int.halt {
            Machine {
                reg: Registers { pc: self.reg.pc.wrapping_add(1), ..self.reg },
                int: Interrupt { halt: false, ..self.int },
                ..self
            }
        } else {
            self
        }
    }

    /// The non-maskable interrupt is accepted: its latch and IFF1 are
    /// cleared, IFF2 stays, the machine leaves the halted state, the program
    /// counter is pushed and set to 0x0066, 11 T-states pass and the refresh
    /// register counts once.
    pub open spec fn accept_nmi(self) -> Machine {
        let m = self.wake();
        (Machine {
            int: Interrupt { nmi_pending: false, iff1: false, ..m.int },
            ..m
        }).push16(m.reg.pc).jump(0x0066).adv_cycles(11).refresh(1)
    }

    /// The machine as a maskable interrupt finds it when it is accepted:
    /// out of the halted state, with both flip-flops and the pending latch
    /// cleared.
    pub open spec fn enter_irq(self) -> Machine {
        let m = self.wake();
        Machine {
            int: Interrupt { iff1: false, iff2: false, ..m.int },
            int_pending: false,
            ..m
        }
    }

    /// Whether mode 0 has an instruction on the bus: the vector byte is
    /// not zero, or the I/O latch is turned to input.
    pub open spec fn bus_instruction(self) -> bool {
        self.int.vector != 0 || self.io.input
    }

    /// The vector byte of mode 2: the byte on the I/O latch when it is
    /// turned to port 0, else the vector seen last.
    pub open spec fn mode2_vector(self) -> u8 {
        if self.io.port == 0 {
            self.io.value
        } else {
            self.int.vector
        }
    }

    /// A maskable interrupt is accepted in mode 2: after 2 T-states, a call
    /// to the address with I as high and the vector as low byte; the vector
    /// is kept, and the interrupt flag and the request latch are cleared.
    pub open spec fn accept_mode2(self) -> Machine {
        let v = self.mode2_vector();
        let m = self.enter_irq().adv_cycles(2).call(word(self.reg.i, v));
        Machine { int: Interrupt { vector: v, int: false, irq: false, ..m.int }, ..m }
    }

    /// A maskable interrupt is accepted.
    ///
    /// In mode 0, with an instruction on the bus, 11 T-states pass and the
    /// vector byte is run as an opcode. In mode 1, 13 T-states pass and
    /// `RST 0x38` runs. Mode 2, and any other value of the mode, is
    /// [`Machine::accept_mode2`].
    pub open spec fn accept_irq(self) -> Machine {
        let m = self.enter_irq();
        if self.int.mode == 0 {
            if self.bus_instruction() {
                m.adv_cycles(11).decode(self.int.vector as u16)
            } else {
                m
            }
        } else if self.int.mode == 1 {
            m.adv_cycles(13).rst(0x0038)
        } else {
            self.accept_mode2()
        }
    }

    /// Whether a maskable interrupt is due: the request latch is up and IFF1 is set.
    pub open spec fn irq_due(self) -> bool {
        self.int.irq && self.int.iff1
    }

    /// Whether the poll has to run, in mode 0, a vector byte for which no
    /// instruction is defined.
    pub open spec fn poll_traps(self) -> bool {
        !self.int.nmi_pending && self.irq_due() && self.int.mode == 0 && self.bus_instruction()
            && !self.enter_irq().adv_cycles(11).known(self.int.vector as u16)
    }

    /// The poll for interrupts after an instruction: a pending
    /// non-maskable interrupt is accepted; else a maskable one that is due;
    /// else nothing happens.
    pub open spec fn poll(self) -> Machine {
        if self.int.nmi_pending {
            self.accept_nmi()
        } else if self.irq_due() {
            if self.poll_traps() {
                self.enter_irq().adv_cycles(11)
            } else {
                self.accept_irq()
            }
        } else {
            self
        }
    }
}

impl Cpu {
    /// Leaves the halted state.
    pub fn wake(&mut self)
        ensures
            final(self)@ =~= old(self)@.wake(),
    {
        if self.int.halt {
            self.int.halt = false;
            self.reg.pc = self.reg.pc.wrapping_add(1);
        }
    }

    /// Accepts the non-maskable interrupt.
    pub fn accept_nmi(&mut self)
        ensures
            final(self)@ =~= old(self)@.accept_nmi(),
    {
        self.wake();
        self.int = Interrupt { nmi_pending: false, iff1: false, ..self.int };
        let pc = self.reg.pc;
        self.push16(pc);
        self.jump(0x0066);
        self.adv_cycles(11);
        self.refresh();
    }

    /// Prepares the machine for the service of a maskable interrupt.
    pub fn enter_irq(&mut self)
        ensures
            final(self)@ =~= old(self)@.enter_irq(),
    {
        self.wake();
        self.int = Interrupt { iff1: false, iff2: false, ..self.int };
        self.int_pending = false;
    }

    /// Accepts a maskable interrupt in mode 2.
    pub fn accept_mode2(&mut self)
        ensures
            final(self)@ =~= old(self)@.accept_mode2(),
    {
        let v = if self.io.port == 0 { self.io.value } else { self.int.vector };
        let addr = make_word(self.reg.i, v);
        self.enter_irq();
        self.adv_cycles(2);
        self.call(addr);
        self.int = Interrupt { vector: v, int: false, irq: false, ..self.int };
    }

    /// Polls for interrupts; to be called after an instruction.
    ///
    /// Fails only in mode 0, when no instruction is defined for the vector byte.
    pub fn poll_interrupt(&mut self) -> (res: Result<(), Trap>)
        ensures
            res.is_err() == old(self)@.poll_traps(),
            final(self)@ =~= old(self)@.poll(),
            res matches Err(t) ==> t == old(self)@.enter_irq().adv_cycles(11).trap(
                old(self).int.vector as u16,
            ),
    {
        if self.int.nmi_pending {
            self.accept_nmi();
            return Ok(());
        }
        if self.int.irq && self.int.iff1 {
            let mode = self.int.mode;
            if mode == 0 {
                let vector = self.int.vector;
                let due = vector != 0 || self.io.input;
                self.enter_irq();
                if due {
                    self.adv_cycles(11);
                    return self.decode(vector as u16);
                }
            } else if mode == 1 {
                self.enter_irq();
                self.adv_cycles(13);
                self.rst(0x0038);
            } else {
                self.accept_mode2();
            }
        }
        Ok(())
    }
}

} // verus!
