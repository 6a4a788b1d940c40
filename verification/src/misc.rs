//! `NOP`, `HALT`, the interrupt enables and modes, the adjustments of
//! the accumulator and the carry, and the port instructions.

use vstd::prelude::*;
use crate::alu::even_parity;
use crate::bits::{bit_of, lemma_wrap8, wrap8};
use crate::cpu::{Cpu, Flags, Interrupt, Io, Registers};
use crate::instruction_info::Register;
use crate::machine::Machine;

verus! {

/// What `DAA` adds to or subtracts from the accumulator `a`: 6 if the half
/// carry is set or the low digit is above 9, and 0x60 more if the carry is
/// set or `a` is above 0x99.
pub open spec fn daa_offset(a: u8, h: bool, c: bool) -> int {
    (if h || a % 16 > 9 {
        6int
    } else {
        0
    }) + (if c || a > 0x99 {
        0x60int
    } else {
        0
    })
}

/// The accumulator after `DAA`: `a` plus the offset after an addition, minus
/// it after a subtraction (`n`), modulo 256.
#[verifier::opaque]
pub open spec fn daa_result(a: u8, n: bool, h: bool, c: bool) -> u8 {
    if n {
        wrap8(a - daa_offset(a, h, c))
    } else {
        wrap8(a + daa_offset(a, h, c))
    }
}

/// Adjusts `a` to packed decimal.
pub fn daa_adjust(a: u8, n: bool, h: bool, c: bool) -> (r: u8)
    ensures
        r == daa_result(a, n, h, c),
{
    reveal(daa_result);
    let mut offset: u8 = 0;
    if h || a % 16 > 9 {
        offset = offset + 0x06;
    }
    if c || a > 0x99 {
        offset = offset + 0x60;
    }
    proof {
        lemma_wrap8(0, a, offset);
    }
    if n {
        a.wrapping_sub(offset)
    } else {
        a.wrapping_add(offset)
    }
}

impl Machine {
    /// `NOP`.
    pub open spec fn nop(self) -> Machine {
        self.advance(1, 4)
    }

    /// `HALT`: the halt latch is set and 4 T-states pass; the program
    /// counter stays on the instruction.
    pub open spec fn halt(self) -> Machine {
        (Machine { int: Interrupt { halt: true, ..self.int }, ..self }).adv_cycles(4)
    }

    /// `EI` for `value` true, `DI` for false: both enable flip-flops and the
    /// interrupt flag take `value` at once.
    pub open spec fn interrupt(self, value: bool) -> Machine {
        (Machine {
            int: Interrupt { int: value, iff1: value, iff2: value, ..self.int },
            ..self
        }).advance(1, 4)
    }

    /// `IM 0`, `IM 1`, `IM 2`.
    pub open spec fn set_interrupt_mode(self, mode: u8) -> Machine {
        (Machine { int: Interrupt { mode: mode, ..self.int }, ..self }).advance(2, 8)
    }

    /// `CPL`: every bit of A is inverted; H and N are set, Y and X come from the new A.
    pub open spec fn cpl(self) -> Machine {
        let r = !self.reg.a;
        (Machine {
            reg: Registers { a: r, ..self.reg },
            flags: Flags { yf: bit_of(r, 5), hf: true, xf: bit_of(r, 3), nf: true, ..self.flags },
            ..self
        }).advance(1, 4)
    }

    /// `CCF`: the carry is inverted, H takes the old carry, N is cleared, Y
    /// and X come from A.
    pub open spec fn ccf(self) -> Machine {
        (Machine {
            flags: Flags {
                yf: bit_of(self.reg.a, 5),
                hf: self.flags.cf,
                xf: bit_of(self.reg.a, 3),
                nf: false,
                cf: !self.flags.cf,
                ..self.flags
            },
            ..self
        }).advance(1, 4)
    }

    /// `SCF`: the carry is set, H and N are cleared, Y and X come from A.
    pub open spec fn scf(self) -> Machine {
        (Machine {
            flags: Flags {
                yf: bit_of(self.reg.a, 5),
                hf: false,
                xf: bit_of(self.reg.a, 3),
                nf: false,
                cf: true,
                ..self.flags
            },
            ..self
        }).advance(1, 4)
    }

    /// `DAA`: A is adjusted to packed decimal after an addition (N clear) or
    /// a subtraction (N set), see [`daa_result`]. S, Z, Y, X and parity come
    /// from the new A; C is set when 0x60 was part of the offset; H is the
    /// carry or borrow that the adjustment of the low digit caused.
    pub open spec fn daa(self) -> Machine {
        let a = self.reg.a;
        let f = self.flags;
        let r = daa_result(a, f.nf, f.hf, f.cf);
        (Machine {
            reg: Registers { a: r, ..self.reg },
            flags: Flags {
                hf: if f.nf {
                    f.hf && a % 16 < 6
                } else {
                    a % 16 > 9
                },
                pf: even_parity(r),
                cf: f.cf || a > 0x99,
                ..f.with_result(r)
            },
            ..self
        }).advance(1, 4)
    }

    /// `IN A,(n)`: the latch is turned to port `n` and to input, and A
    /// takes the byte on it.
    pub open spec fn in_a(self) -> Machine {
        (Machine {
            reg: Registers { a: self.io.value, ..self.reg },
            io: Io { port: self.imm8(), input: true, output: false, ..self.io },
            ..self
        }).advance(2, 11)
    }

    /// `IN r,(C)`: the latch is turned to port C and to input, and the
    /// register takes the byte on it. S, Z, Y, X and parity come from the
    /// byte; H and N are cleared.
    pub open spec fn in_c(self, reg: Register) -> Machine {
        let v = self.io.value;
        (Machine {
            io: Io { port: self.reg.c, input: true, output: false, ..self.io },
            flags: Flags { hf: false, pf: even_parity(v), nf: false, ..self.flags.with_result(v) },
            ..self
        }).write_reg(reg, v).advance(2, 12)
    }

    /// `OUT (n),r`: the latch is turned to port `n` and to output, and
    /// holds the register's byte.
    pub open spec fn out(self, reg: Register) -> Machine {
        (Machine {
            io: Io { port: self.imm8(), value: self.read_reg(reg), input: false, output: true },
            ..self
        }).advance(2, 11)
    }
}

impl Cpu {
    /// `NOP`.
    pub fn nop(&mut self)
        ensures
            final(self)@ =~= old(self)@.nop(),
    {
        self.advance(1, 4);
    }

    /// `HALT`: sets the halt latch and stays on the instruction.
    pub fn halt(&mut self)
        ensures
            final(self)@ =~= old(self)@.halt(),
    {
        self.int.halt = true;
        self.adv_cycles(4);
    }

    /// `EI` and `DI`.
    pub fn interrupt(&mut self, value: bool)
        ensures
            final(self)@ =~= old(self)@.interrupt(value),
    {
        self.int = Interrupt { int: value, iff1: value, iff2: value, ..self.int };
        self.advance(1, 4);
    }

    /// `IM 0`, `IM 1`, `IM 2`.
    pub fn set_interrupt_mode(&mut self, mode: u8)
        requires
            mode <= 2,
        ensures
            final(self)@ =~= old(self)@.set_interrupt_mode(mode),
    {
        self.int.mode = mode;
        self.advance(2, 8);
    }

    /// `CPL`.
    pub fn cpl(&mut self)
        ensures
            final(self)@ =~= old(self)@.cpl(),
    {
        let a = self.reg.a;
        let r = a ^ 0xFF;
        assert(a ^ 0xFF == !a) by (bit_vector);
        self.reg.a = r;
        self.flags = Flags {
            yf: (r & 0x20) != 0,
            hf: true,
            xf: (r & 0x08) != 0,
            nf: true,
            ..self.flags
        };
        self.advance(1, 4);
    }

    /// `CCF`.
    pub fn ccf(&mut self)
        ensures
            final(self)@ =~= old(self)@.ccf(),
    {
        let a = self.reg.a;
        let c = self.flags.cf;
        self.flags = Flags {
            yf: (a & 0x20) != 0,
            hf: c,
            xf: (a & 0x08) != 0,
            nf: false,
            cf: !c,
            ..self.flags
        };
        self.advance(1, 4);
    }

    /// `SCF`.
    pub fn scf(&mut self)
        ensures
            final(self)@ =~= old(self)@.scf(),
    {
        let a = self.reg.a;
        self.flags = Flags {
            yf: (a & 0x20) != 0,
            hf: false,
            xf: (a & 0x08) != 0,
            nf: false,
            cf: true,
            ..self.flags
        };
        self.advance(1, 4);
    }

    /// `DAA`.
    pub fn daa(&mut self)
        ensures
            final(self)@ =~= old(self)@.daa(),
    {
        let a = self.reg.a;
        let f = self.flags;
        let low = a % 16;
        let carry = f.cf || a > 0x99;
        let r = daa_adjust(a, f.nf, f.hf, f.cf);
        let h = if f.nf { f.hf && low < 6 } else { low > 9 };
        let p = self.parity(r);
        let mut g = f;
        g.set_result(r);
        self.flags = Flags { hf: h, pf: p, cf: carry, ..g };
        self.reg.a = r;
        self.advance(1, 4);
    }

    /// `IN A,(n)`.
    pub fn in_a(&mut self)
        ensures
            final(self)@ =~= old(self)@.in_a(),
    {
        let port = self.imm8();
        self.reg.a = self.io.value;
        self.io = Io { port: port, input: true, output: false, ..self.io };
        self.advance(2, 11);
    }

    /// `IN r,(C)`.
    pub fn in_c(&mut self, reg: Register)
        requires
            reg.is_plain(),
        ensures
            final(self)@ =~= old(self)@.in_c(reg),
    {
        let v = self.io.value;
        let p = self.parity(v);
        self.io = Io { port: self.reg.c, input: true, output: false, ..self.io };
        let mut g = self.flags;
        g.set_result(v);
        self.flags = Flags { hf: false, pf: p, nf: false, ..g };
        self.write_reg(reg, v);
        self.advance(2, 12);
    }

    /// `OUT (n),r`.
    pub fn out(&mut self, reg: Register)
        requires
            reg.is_plain(),
        ensures
            final(self)@ =~= old(self)@.out(reg),
    {
        let port = self.imm8();
        let value = self.read_reg(reg);
        self.io = Io { port: port, value: value, input: false, output: true };
        self.advance(2, 11);
    }
}

} // verus!
