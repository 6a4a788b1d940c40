//! The block instructions `LDI`, `LDIR`, `CPI`, `CPD`, `CPIR` and `CPDR`.

use vstd::prelude::*;
use crate::bits::{bit_of, wrap8};
use crate::cpu::{Cpu, Flags};
use crate::instruction_info::Register;
use crate::machine::Machine;
use crate::memory::MemoryRW;

verus! {

impl Machine {
    /// `LDI`: the byte at `(HL)` is copied to `(DE)`; HL and DE go up by
    /// one and BC down by one, modulo 65536. P/V tells whether BC is still
    /// not zero, H and N are cleared, Y and X are bits 1 and 3 of the copied
    /// byte plus A; S, Z and C stay.
    pub open spec fn ldi(self) -> Machine {
        let hl = self.read_pair(Register::HL);
        let de = self.read_pair(Register::DE);
        let bc = self.read_pair(Register::BC).wrapping_sub(1);
        let v = self.read8(hl);
        let n = wrap8(v + self.reg.a);
        let m = Machine {
            flags: Flags {
                yf: bit_of(n, 1),
                hf: false,
                xf: bit_of(n, 3),
                pf: bc != 0,
                nf: false,
                ..self.flags
            },
            ..self.write8(de, v)
        };
        m.write_pair(Register::HL, hl.wrapping_add(1)).write_pair(
            Register::DE,
            de.wrapping_add(1),
        ).write_pair(Register::BC, bc).advance(2, 16)
    }

    /// The machine set back onto a two-byte repeating instruction that has
    /// just run: the program counter goes back by two and 5 T-states pass.
    pub open spec fn repeat(self) -> Machine {
        self.jump(self.reg.pc.wrapping_sub(2)).adv_cycles(5)
    }

    /// `LDIR`: one `LDI`, run again from the same address while BC is not zero.
    pub open spec fn ldir(self) -> Machine {
        let m = self.ldi();
        if m.read_pair(Register::BC) != 0 {
            m.repeat()
        } else {
            m
        }
    }

    /// `CPI` (`up`) and `CPD`: A is compared with the byte at `(HL)`; HL
    /// goes up or down by one and BC down by one, modulo 65536. S, Z and H
    /// come from the difference, Y and X from the byte, N is set, P/V tells
    /// whether BC is still not zero; C stays.
    pub open spec fn cp_block(self, up: bool) -> Machine {
        let hl = self.read_pair(Register::HL);
        let bc = self.read_pair(Register::BC).wrapping_sub(1);
        let v = self.read8(hl);
        let m = Machine {
            flags: Flags { pf: bc != 0, cf: self.flags.cf, ..self.sub_flags(v, false, v) },
            ..self
        };
        m.write_pair(
            Register::HL,
            if up {
                hl.wrapping_add(1)
            } else {
                hl.wrapping_sub(1)
            },
        ).write_pair(Register::BC, bc).advance(2, 16)
    }

    /// `CPI`.
    pub open spec fn cpi(self) -> Machine {
        self.cp_block(true)
    }

    /// `CPD`.
    pub open spec fn cpd(self) -> Machine {
        self.cp_block(false)
    }

    /// The machine after a repeating compare ran once: set back onto the
    /// instruction unless the byte was found or BC is zero.
    pub open spec fn cp_repeat(self, up: bool) -> Machine {
        let m = self.cp_block(up);
        if m.read_pair(Register::BC) != 0 && !m.flags.zf {
            m.repeat()
        } else {
            m
        }
    }

    /// `CPIR`.
    pub open spec fn cpir(self) -> Machine {
        self.cp_repeat(true)
    }

    /// `CPDR`.
    pub open spec fn cpdr(self) -> Machine {
        self.cp_repeat(false)
    }
}

impl Cpu {
    /// `LDI`: copies one byte from `(HL)` to `(DE)` and moves the three pairs on.
    pub fn ldi(&mut self)
        ensures
            final(self)@ =~= old(self)@.ldi(),
    {
        let hl = self.read_pair(Register::HL);
        let de = self.read_pair(Register::DE);
        let bc = self.read_pair(Register::BC).wrapping_sub(1);
        let v = self.read8(hl);
        let n = v.wrapping_add(self.reg.a);
        proof {
            crate::bits::lemma_wrap8(0, v, self.reg.a);
        }
        self.write8(de, v);
        self.flags = Flags {
            yf: (n & 0x02) != 0,
            hf: false,
            xf: (n & 0x08) != 0,
            pf: bc != 0,
            nf: false,
            ..self.flags
        };
        self.step_block(hl.wrapping_add(1), de.wrapping_add(1), bc);
    }

    /// Stores the new values of HL, DE and BC after one step of a block
    /// instruction and moves on by its two bytes and 16 T-states.
    pub fn step_block(&mut self, hl: u16, de: u16, bc: u16)
        ensures
            final(self)@ =~= old(self)@.write_pair(Register::HL, hl).write_pair(
                Register::DE,
                de,
            ).write_pair(Register::BC, bc).advance(2, 16),
    {
        self.write_pair(Register::HL, hl);
        self.write_pair(Register::DE, de);
        self.write_pair(Register::BC, bc);
        self.advance(2, 16);
    }

    /// Sets the machine back onto the repeating instruction that has just run.
    pub fn repeat(&mut self)
        ensures
            final(self)@ =~= old(self)@.repeat(),
    {
        let pc = self.reg.pc.wrapping_sub(2);
        self.jump(pc);
        self.adv_cycles(5);
    }

    /// `LDIR`: one `LDI`, to be run again while BC is not zero.
    pub fn ldir(&mut self)
        ensures
            final(self)@ =~= old(self)@.ldir(),
    {
        self.ldi();
        if self.read_pair(Register::BC) != 0 {
            self.repeat();
        }
    }

    /// `CPI` if `up`, else `CPD`.
    pub fn cp_block(&mut self, up: bool)
        ensures
            final(self)@ =~= old(self)@.cp_block(up),
    {
        let hl = self.read_pair(Register::HL);
        let bc = self.read_pair(Register::BC).wrapping_sub(1);
        let v = self.read8(hl);
        let carry = self.flags.cf;
        let _ = self.sub_flags(v, false, false);
        self.flags = Flags { pf: bc != 0, cf: carry, ..self.flags };
        let next = if up { hl.wrapping_add(1) } else { hl.wrapping_sub(1) };
        self.write_pair(Register::HL, next);
        self.write_pair(Register::BC, bc);
        self.advance(2, 16);
    }

    /// `CPI`.
    pub fn cpi(&mut self)
        ensures
            final(self)@ =~= old(self)@.cpi(),
    {
        self.cp_block(true);
    }

    /// `CPD`.
    pub fn cpd(&mut self)
        ensures
            final(self)@ =~= old(self)@.cpd(),
    {
        self.cp_block(false);
    }

    /// `CPIR` if `up`, else `CPDR`.
    pub fn cp_repeat(&mut self, up: bool)
        ensures
            final(self)@ =~= old(self)@.cp_repeat(up),
    {
        self.cp_block(up);
        if self.read_pair(Register::BC) != 0 && !self.flags.zf {
            self.repeat();
        }
    }

    /// `CPIR`.
    pub fn cpir(&mut self)
        ensures
            final(self)@ =~= old(self)@.cpir(),
    {
        self.cp_repeat(true);
    }

    /// `CPDR`.
    pub fn cpdr(&mut self)
        ensures
            final(self)@ =~= old(self)@.cpdr(),
    {
        self.cp_repeat(false);
    }
}

} // verus!
