//! Jumps, calls, returns and restarts.

use vstd::prelude::*;
use crate::alu::to_signed;
use crate::bits::{lemma_wrap16, signed8, wrap16};
use crate::cpu::{Cpu, Registers};
use crate::instruction_info::Register;
use crate::machine::Machine;

verus! {

impl Machine {
    /// A jump to `addr` that costs `additional_cycles` T-states.
    pub open spec fn jp(self, addr: u16, additional_cycles: usize) -> Machine {
        self.jump(addr).adv_cycles(additional_cycles)
    }

    /// `JP cc,nn` and `JP nn`: a jump to the word operand if `cond` holds,
    /// else on to the next instruction; 10 T-states either way.
    pub open spec fn jp_cond(self, cond: bool) -> Machine {
        if cond {
            self.jump(self.imm16()).adv_cycles(10)
        } else {
            self.advance(3, 10)
        }
    }

    /// `JP (HL)`.
    pub open spec fn pchl(self) -> Machine {
        self.jump(self.read_pair(Register::HL)).adv_cycles(4)
    }

    /// `JR e`: a jump to the address of the next instruction plus `offset`,
    /// modulo 65536; the instruction is two bytes long.
    pub open spec fn jr(self, offset: i16) -> Machine {
        self.jump(wrap16(self.reg.pc + 2 + offset)).adv_cycles(12)
    }

    /// `JR cc,e`: a relative jump by the signed operand byte if `cond`
    /// holds, else 7 T-states and on to the next instruction.
    pub open spec fn jr_cond(self, cond: bool) -> Machine {
        if cond {
            self.jr(signed8(self.imm8()) as i16)
        } else {
            self.advance(2, 7)
        }
    }

    /// `DJNZ e`: B goes down by one, modulo 256, and a relative jump is
    /// taken while B is not zero; 13 T-states when taken, 8 when not.
    pub open spec fn djnz(self) -> Machine {
        let b = self.reg.b.wrapping_sub(1);
        (Machine { reg: Registers { b: b, ..self.reg }, ..self }).adv_cycles(1).jr_cond(b != 0)
    }

    /// `CALL nn` with `addr` the destination: the address of the next
    /// instruction, three bytes on, is pushed, and the jump is taken.
    pub open spec fn call(self, addr: u16) -> Machine {
        self.push16(self.reg.pc.wrapping_add(3)).jump(addr).adv_cycles(17)
    }

    /// `CALL cc,nn`: a call if `cond` holds, else 10 T-states and on to the
    /// next instruction.
    pub open spec fn call_cond(self, addr: u16, cond: bool) -> Machine {
        if cond {
            self.call(addr)
        } else {
            self.advance(3, 10)
        }
    }

    /// `RET`: the program counter is popped off the stack.
    pub open spec fn ret(self) -> Machine {
        self.drop16().jump(self.top16()).adv_cycles(10)
    }

    /// `RET cc`: a return that costs one T-state more if `cond` holds, else
    /// 5 T-states and on to the next instruction.
    pub open spec fn ret_cond(self, cond: bool) -> Machine {
        if cond {
            self.adv_cycles(1).ret()
        } else {
            self.advance(1, 5)
        }
    }

    /// `RST p`: a one-byte call to `value`.
    pub open spec fn rst(self, value: u16) -> Machine {
        self.push16(self.reg.pc.wrapping_add(1)).jump(value).adv_cycles(11)
    }
}

impl Cpu {
    /// Sets the program counter to `addr`.
    pub fn jump(&mut self, addr: u16)
        ensures
            final(self)@ =~= old(self)@.jump(addr),
    {
        self.reg.prev_pc = self.reg.pc;
        self.reg.pc = addr;
    }

    /// Jumps to `addr` at the cost of `additional_cycles` T-states.
    pub fn jp(&mut self, addr: u16, additional_cycles: usize)
        ensures
            final(self)@ =~= old(self)@.jp(addr, additional_cycles),
    {
        self.jump(addr);
        self.adv_cycles(additional_cycles);
    }

    /// `JP cc,nn`: jumps to the word operand if `cond` holds.
    pub fn jp_cond(&mut self, cond: bool)
        ensures
            final(self)@ =~= old(self)@.jp_cond(cond),
    {
        if cond {
            let addr = self.imm16();
            self.jump(addr);
            self.adv_cycles(10);
        } else {
            self.advance(3, 10);
        }
    }

    /// `JP (HL)`.
    pub fn pchl(&mut self)
        ensures
            final(self)@ =~= old(self)@.pchl(),
    {
        let hl = self.read_pair(Register::HL);
        self.jump(hl);
        self.adv_cycles(4);
    }

    /// `JR e`: jumps by `offset` from the next instruction.
    pub fn jr(&mut self, offset: i16)
        ensures
            final(self)@ =~= old(self)@.jr(offset),
    {
        let base = self.reg.pc.wrapping_add(2);
        let wide: i32 = offset as i32;
        let target = if wide >= 0 {
            let up: u16 = wide as u16;
            proof {
                lemma_wrap16(base + up, base, up);
                lemma_wrap16(0, self.reg.pc, 2);
            }
            base.wrapping_add(up)
        } else {
            let down: u16 = (0 - wide) as u16;
            proof {
                lemma_wrap16(base - down, base, down);
                lemma_wrap16(0, self.reg.pc, 2);
            }
            base.wrapping_sub(down)
        };
        self.jump(target);
        self.adv_cycles(12);
    }

    /// `JR cc,e`: jumps by the signed operand byte if `cond` holds.
    pub fn jr_cond(&mut self, cond: bool)
        ensures
            final(self)@ =~= old(self)@.jr_cond(cond),
    {
        if cond {
            let d = self.imm8();
            let offset: i16 = to_signed(d) as i16;
            self.jr(offset);
        } else {
            self.advance(2, 7);
        }
    }

    /// `DJNZ e`: counts B down and jumps while it is not zero.
    pub fn djnz(&mut self)
        ensures
            final(self)@ =~= old(self)@.djnz(),
    {
        self.reg.b = self.reg.b.wrapping_sub(1);
        self.adv_cycles(1);
        let taken = self.reg.b != 0;
        self.jr_cond(taken);
    }

    /// `CALL nn`, with `addr` the destination.
    pub fn call(&mut self, addr: u16)
        ensures
            final(self)@ =~= old(self)@.call(addr),
    {
        let ret = self.reg.pc.wrapping_add(3);
        self.push16(ret);
        self.jump(addr);
        self.adv_cycles(17);
    }

    /// `CALL cc,nn`, with `addr` the destination: calls if `cond` holds.
    pub fn call_cond(&mut self, addr: u16, cond: bool)
        ensures
            final(self)@ =~= old(self)@.call_cond(addr, cond),
    {
        if cond {
            self.call(addr);
        } else {
            self.advance(3, 10);
        }
    }

    /// `RET`.
    pub fn ret(&mut self)
        ensures
            final(self)@ =~= old(self)@.ret(),
    {
        let addr = self.pop16();
        self.jump(addr);
        self.adv_cycles(10);
    }

    /// `RET cc`: returns if `cond` holds.
    pub fn ret_cond(&mut self, cond: bool)
        ensures
            final(self)@ =~= old(self)@.ret_cond(cond),
    {
        if cond {
            self.adv_cycles(1);
            self.ret();
        } else {
            self.advance(1, 5);
        }
    }

    /// `RST p`: calls `value`, pushing the address of the next instruction.
    pub fn rst(&mut self, value: u16)
        ensures
            final(self)@ =~= old(self)@.rst(value),
    {
        let ret = self.reg.pc.wrapping_add(1);
        self.push16(ret);
        self.jump(value);
        self.adv_cycles(11);
    }
}

} // verus!
