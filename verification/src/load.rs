//! Loads, the stack, and the exchanges of registers.

use vstd::prelude::*;
use crate::cpu::{Cpu, Flags, Registers};
use crate::instruction_info::Register;
use crate::machine::Machine;
use crate::memory::MemoryRW;

verus! {

impl Register {
    /// A half of IX, or of IY, with an operand that can stand beside it in a
    /// load: A, B, C, D, E, or a half of the same index register.
    pub open spec fn is_half_form(half: Register, other: Register) -> bool {
        half.is_index_half() && (other == Register::A || other == Register::B || other
            == Register::C || other == Register::D || other == Register::E || ((half
            == Register::IXH || half == Register::IXL) && (other == Register::IXH || other
            == Register::IXL)) || ((half == Register::IYH || half == Register::IYL) && (other
            == Register::IYH || other == Register::IYL)))
    }

    /// The destination and source of an 8-bit load `LD dst,src`.
    ///
    /// HL, BC and DE name the byte in memory that the pair points at. The
    /// forms are: register to register; a register with `(HL)`, `(IX+d)` or
    /// `(IY+d)`; A with `(BC)` or `(DE)`; A with I or R; and a half of an
    /// index register with A, B, C, D, E or a half of the same register.
    pub open spec fn is_ld_form(dst: Register, src: Register) -> bool {
        (dst.is_plain() && src.is_plain()) || (dst.is_plain() && (src == Register::HL
            || src.is_displaced())) || ((dst == Register::HL || dst.is_displaced())
            && src.is_plain()) || (dst == Register::A && (src == Register::BC || src
            == Register::DE || src == Register::I || src == Register::R)) || ((dst == Register::BC
            || dst == Register::DE || dst == Register::I || dst == Register::R) && src
            == Register::A) || Register::is_half_form(dst, src) || Register::is_half_form(src, dst)
    }

    /// The length in bytes of `LD dst,src`.
    pub open spec fn ld_len(dst: Register, src: Register) -> u16 {
        if dst.is_displaced() || src.is_displaced() {
            3
        } else if dst.is_index_half() || src.is_index_half() || dst == Register::I || dst
            == Register::R || src == Register::I || src == Register::R {
            2
        } else {
            1
        }
    }

    /// The T-states of `LD dst,src`.
    pub open spec fn ld_cycles(dst: Register, src: Register) -> usize {
        if dst.is_displaced() || src.is_displaced() {
            19
        } else if dst.is_index_half() || src.is_index_half() {
            8
        } else if dst == Register::I || dst == Register::R || src == Register::I || src
            == Register::R {
            9
        } else if dst.is_pair() || src.is_pair() {
            7
        } else {
            4
        }
    }

    /// An operand of `LD r,n`: a register, `(HL)`, an index half, `(IX+d)` or `(IY+d)`.
    pub open spec fn mvi_len(self) -> u16 {
        if self.is_displaced() {
            4
        } else if self.is_index_half() {
            3
        } else {
            2
        }
    }

    /// The T-states of `LD r,n`.
    pub open spec fn mvi_cycles(self) -> usize {
        if self.is_displaced() {
            19
        } else if self.is_index_half() {
            11
        } else if self == Register::HL {
            10
        } else {
            7
        }
    }

    /// A pair that the stack instructions take: BC, DE, HL, AF, IX or IY.
    pub open spec fn is_stack_pair(self) -> bool {
        self == Register::BC || self == Register::DE || self == Register::HL || self
            == Register::AF || self == Register::IX || self == Register::IY
    }

    /// HL, IX or IY.
    pub open spec fn is_pointer(self) -> bool {
        self == Register::HL || self == Register::IX || self == Register::IY
    }
}

impl Machine {
    /// The byte that `LD` reads from `src`.
    pub open spec fn ld_source(self, src: Register) -> u8 {
        if src == Register::BC || src == Register::DE {
            self.read8(self.read_pair(src))
        } else {
            self.read_reg(src)
        }
    }

    /// The machine after `LD` stored `value` in `dst`.
    pub open spec fn ld_store(self, dst: Register, value: u8) -> Machine {
        if dst == Register::BC || dst == Register::DE {
            self.write8(self.read_pair(dst), value)
        } else {
            self.write_reg(dst, value)
        }
    }

    /// `LD dst,src`: the source byte is stored in the destination. Only
    /// `LD A,I` and `LD A,R` change flags: S, Z, Y, X come from the byte, H
    /// and N are cleared, P/V is a copy of IFF2.
    pub open spec fn ld(self, dst: Register, src: Register) -> Machine {
        let value = self.ld_source(src);
        let m = self.ld_store(dst, value);
        let n = if src == Register::I || src == Register::R {
            Machine {
                flags: Flags {
                    hf: false,
                    pf: self.int.iff2,
                    nf: false,
                    ..self.flags.with_result(value)
                },
                ..m
            }
        } else {
            m
        };
        n.advance(Register::ld_len(dst, src), Register::ld_cycles(dst, src))
    }

    /// `LD r,n`: the immediate byte, which is the last byte of the
    /// instruction, is stored in the operand.
    pub open spec fn mvi(self, reg: Register) -> Machine {
        let n = self.read8(self.reg.pc.wrapping_add((reg.mvi_len() - 1) as u16));
        self.write_reg(reg, n).advance(reg.mvi_len(), reg.mvi_cycles())
    }

    /// `LD A,(nn)`.
    pub open spec fn ld_r_mem_nn(self) -> Machine {
        (Machine { reg: Registers { a: self.read8(self.imm16()), ..self.reg }, ..self }).advance(
            3,
            13,
        )
    }

    /// `LD (nn),A`.
    pub open spec fn ld_nn_r(self) -> Machine {
        self.write8(self.imm16(), self.reg.a).advance(3, 13)
    }

    /// `LD A,(rp)`: A becomes the byte that the pair points at.
    pub open spec fn ld_reg_mem_rp(self, reg: Register) -> Machine {
        (Machine {
            reg: Registers { a: self.read8(self.read_pair(reg)), ..self.reg },
            ..self
        }).advance(1, 7)
    }

    /// The word operand of an instruction on the pair `reg`: it follows the
    /// opcode byte, which an IX or IY form has one byte later.
    pub open spec fn operand16(self, reg: Register) -> u16 {
        self.read16(self.reg.pc.wrapping_add(reg.operand_len()))
    }

    /// `LD rp,nn`.
    pub open spec fn ld_rp_nn(self, reg: Register) -> Machine {
        self.write_pair(reg, self.operand16(reg)).advance(
            (reg.operand_len() + 2) as u16,
            if reg.is_indexed() {
                14
            } else {
                10
            },
        )
    }

    /// `LD HL,(nn)`, and the same for IX and IY.
    pub open spec fn lhld(self, reg: Register) -> Machine {
        self.write_pair(reg, self.read16(self.operand16(reg))).advance(
            (reg.operand_len() + 2) as u16,
            if reg.is_indexed() {
                20
            } else {
                16
            },
        )
    }

    /// `LD (nn),HL`, and the same for IX and IY.
    pub open spec fn shld(self, reg: Register) -> Machine {
        self.write16(self.operand16(reg), self.read_pair(reg)).advance(
            (reg.operand_len() + 2) as u16,
            if reg.is_indexed() {
                20
            } else {
                16
            },
        )
    }

    /// The word operand of a four-byte instruction of the ED plane.
    pub open spec fn ed_operand16(self) -> u16 {
        self.read16(self.reg.pc.wrapping_add(2))
    }

    /// `LD (nn),rp` of the ED plane.
    pub open spec fn ld_mem_nn_rp(self, reg: Register) -> Machine {
        self.write16(self.ed_operand16(), self.read_pair(reg)).advance(4, 20)
    }

    /// `LD rp,(nn)` of the ED plane.
    pub open spec fn ld_rp_mem_nn(self, reg: Register) -> Machine {
        self.write_pair(reg, self.read16(self.ed_operand16())).advance(4, 20)
    }

    /// `LD SP,HL`.
    pub open spec fn sphl(self) -> Machine {
        self.write_pair(Register::SP, self.read_pair(Register::HL)).advance(1, 6)
    }

    /// The machine after `value` was pushed: SP goes down by two, the low
    /// byte is stored at the new SP and the high byte above it.
    pub open spec fn push16(self, value: u16) -> Machine {
        let sp = self.reg.sp.wrapping_sub(2);
        (Machine { reg: Registers { sp: sp, ..self.reg }, ..self }).write16(sp, value)
    }

    /// The word on top of the stack.
    pub open spec fn top16(self) -> u16 {
        self.read16(self.reg.sp)
    }

    /// The machine after the word on top of the stack was dropped: SP goes up by two.
    pub open spec fn drop16(self) -> Machine {
        Machine { reg: Registers { sp: self.reg.sp.wrapping_add(2), ..self.reg }, ..self }
    }

    /// `PUSH rp`.
    pub open spec fn push(self, reg: Register) -> Machine {
        self.push16(self.read_pair(reg)).advance(
            reg.operand_len(),
            if reg.is_indexed() {
                15
            } else {
                11
            },
        )
    }

    /// `POP rp`.
    pub open spec fn pop(self, reg: Register) -> Machine {
        self.write_pair(reg, self.top16()).drop16().advance(
            reg.operand_len(),
            if reg.is_indexed() {
                14
            } else {
                10
            },
        )
    }

    /// `EX (SP),HL`: HL and the word on top of the stack change places.
    pub open spec fn xthl(self) -> Machine {
        self.write16(self.reg.sp, self.read_pair(Register::HL)).write_pair(
            Register::HL,
            self.top16(),
        ).advance(1, 19)
    }

    /// `EX DE,HL`.
    pub open spec fn ex_de_hl(self) -> Machine {
        (Machine {
            reg: Registers {
                d: self.reg.h,
                e: self.reg.l,
                h: self.reg.d,
                l: self.reg.e,
                ..self.reg
            },
            ..self
        }).advance(1, 4)
    }

    /// `EX AF,AF'`: A changes places with A', and the flags with the shadow flags.
    pub open spec fn ex_af_af(self) -> Machine {
        (Machine {
            reg: Registers { a: self.reg.a_, a_: self.reg.a, ..self.reg },
            flags: self.flags.swapped(),
            ..self
        }).advance(1, 4)
    }

    /// `EXX`: BC, DE and HL change places with their shadows.
    pub open spec fn exx(self) -> Machine {
        (Machine {
            reg: Registers {
                b: self.reg.b_,
                c: self.reg.c_,
                d: self.reg.d_,
                e: self.reg.e_,
                h: self.reg.h_,
                l: self.reg.l_,
                b_: self.reg.b,
                c_: self.reg.c,
                d_: self.reg.d,
                e_: self.reg.e,
                h_: self.reg.h,
                l_: self.reg.l,
                ..self.reg
            },
            ..self
        }).advance(1, 4)
    }
}

impl Cpu {
    /// `LD dst,src` for byte operands; BC, DE and HL name the byte they point at.
    pub fn ld(&mut self, dst: Register, src: Register)
        requires
            Register::is_ld_form(dst, src),
        ensures
            final(self)@ =~= old(self)@.ld(dst, src),
    {
        let value = if src == Register::BC || src == Register::DE {
            let addr = self.read_pair(src);
            self.read8(addr)
        } else {
            self.read_reg(src)
        };
        let iff2 = self.int.iff2;
        let flags = self.flags;
        if dst == Register::BC || dst == Register::DE {
            let addr = self.read_pair(dst);
            self.write8(addr, value);
        } else {
            self.write_reg(dst, value);
        }
        if src == Register::I || src == Register::R {
            let mut f = flags;
            f.set_result(value);
            self.flags = Flags { hf: false, pf: iff2, nf: false, ..f };
        }
        let displaced = dst.displaced() || src.displaced();
        let half = dst.index_half() || src.index_half();
        let special = dst == Register::I || dst == Register::R || src == Register::I || src
            == Register::R;
        let memory = dst == Register::HL || dst == Register::BC || dst == Register::DE || src
            == Register::HL || src == Register::BC || src == Register::DE;
        let len: u16 = if displaced { 3 } else if half || special { 2 } else { 1 };
        let t: usize = if displaced {
            19
        } else if half {
            8
        } else if special {
            9
        } else if memory {
            7
        } else {
            4
        };
        self.advance(len, t);
    }

    /// `LD r,n`: stores the immediate byte in the operand.
    pub fn mvi(&mut self, reg: Register)
        requires
            reg.is_operand(),
        ensures
            final(self)@ =~= old(self)@.mvi(reg),
    {
        let len: u16 = if reg.displaced() { 4 } else if reg.index_half() { 3 } else { 2 };
        let t: usize = if reg.displaced() {
            19
        } else if reg.index_half() {
            11
        } else if reg == Register::HL {
            10
        } else {
            7
        };
        let value = self.read8(self.reg.pc.wrapping_add(len - 1));
        self.write_reg(reg, value);
        self.advance(len, t);
    }

    /// `LD A,(nn)`.
    pub fn ld_r_mem_nn(&mut self)
        ensures
            final(self)@ =~= old(self)@.ld_r_mem_nn(),
    {
        let addr = self.imm16();
        self.reg.a = self.read8(addr);
        self.advance(3, 13);
    }

    /// `LD (nn),A`.
    pub fn ld_nn_r(&mut self)
        ensures
            final(self)@ =~= old(self)@.ld_nn_r(),
    {
        let addr = self.imm16();
        self.write8(addr, self.reg.a);
        self.advance(3, 13);
    }

    /// `LD A,(rp)`.
    pub fn ld_reg_mem_rp(&mut self, reg: Register)
        requires
            reg == Register::BC || reg == Register::DE || reg == Register::HL,
        ensures
            final(self)@ =~= old(self)@.ld_reg_mem_rp(reg),
    {
        let addr = self.read_pair(reg);
        self.reg.a = self.read8(addr);
        self.advance(1, 7);
    }

    /// The word operand of an instruction on the pair `reg`.
    pub fn operand16(&self, reg: Register) -> (w: u16)
        ensures
            w == self@.operand16(reg),
    {
        self.read16(self.reg.pc.wrapping_add(reg.length()))
    }

    /// `LD rp,nn`.
    pub fn ld_rp_nn(&mut self, reg: Register)
        requires
            reg.is_counter(),
        ensures
            final(self)@ =~= old(self)@.ld_rp_nn(reg),
    {
        let value = self.operand16(reg);
        self.write_pair(reg, value);
        let t: usize = if reg.indexed() { 14 } else { 10 };
        self.advance(reg.length() + 2, t);
    }

    /// `LD HL,(nn)`, also for IX and IY.
    pub fn lhld(&mut self, reg: Register)
        requires
            reg.is_pointer(),
        ensures
            final(self)@ =~= old(self)@.lhld(reg),
    {
        let addr = self.operand16(reg);
        let value = self.read16(addr);
        self.write_pair(reg, value);
        let t: usize = if reg.indexed() { 20 } else { 16 };
        self.advance(reg.length() + 2, t);
    }

    /// `LD (nn),HL`, also for IX and IY.
    pub fn shld(&mut self, reg: Register)
        requires
            reg.is_pointer(),
        ensures
            final(self)@ =~= old(self)@.shld(reg),
    {
        let addr = self.operand16(reg);
        let value = self.read_pair(reg);
        self.write16(addr, value);
        let t: usize = if reg.indexed() { 20 } else { 16 };
        self.advance(reg.length() + 2, t);
    }

    /// `LD (nn),rp` of the ED plane.
    pub fn ld_mem_nn_rp(&mut self, reg: Register)
        requires
            reg.is_wide_operand(),
        ensures
            final(self)@ =~= old(self)@.ld_mem_nn_rp(reg),
    {
        let addr = self.read16(self.reg.pc.wrapping_add(2));
        let value = self.read_pair(reg);
        self.write16(addr, value);
        self.advance(4, 20);
    }

    /// `LD rp,(nn)` of the ED plane.
    pub fn ld_rp_mem_nn(&mut self, reg: Register)
        requires
            reg.is_wide_operand(),
        ensures
            final(self)@ =~= old(self)@.ld_rp_mem_nn(reg),
    {
        let addr = self.read16(self.reg.pc.wrapping_add(2));
        let value = self.read16(addr);
        self.write_pair(reg, value);
        self.advance(4, 20);
    }

    /// `LD SP,HL`.
    pub fn sphl(&mut self)
        ensures
            final(self)@ =~= old(self)@.sphl(),
    {
        self.reg.sp = self.read_pair(Register::HL);
        self.advance(1, 6);
    }

    /// Pushes `value` on the stack.
    pub fn push16(&mut self, value: u16)
        ensures
            final(self)@ =~= old(self)@.push16(value),
    {
        self.reg.sp = self.reg.sp.wrapping_sub(2);
        self.write16(self.reg.sp, value);
    }

    /// Takes the word on top of the stack off it.
    pub fn pop16(&mut self) -> (w: u16)
        ensures
            w == old(self)@.top16(),
            final(self)@ =~= old(self)@.drop16(),
    {
        let w = self.read16(self.reg.sp);
        self.reg.sp = self.reg.sp.wrapping_add(2);
        w
    }

    /// `PUSH rp`.
    pub fn push(&mut self, reg: Register)
        requires
            reg.is_stack_pair(),
        ensures
            final(self)@ =~= old(self)@.push(reg),
    {
        let value = self.read_pair(reg);
        self.push16(value);
        let t: usize = if reg.indexed() { 15 } else { 11 };
        self.advance(reg.length(), t);
    }

    /// `POP rp`.
    pub fn pop(&mut self, reg: Register)
        requires
            reg.is_stack_pair(),
        ensures
            final(self)@ =~= old(self)@.pop(reg),
    {
        let value = self.read16(self.reg.sp);
        self.write_pair(reg, value);
        self.reg.sp = self.reg.sp.wrapping_add(2);
        let t: usize = if reg.indexed() { 14 } else { 10 };
        self.advance(reg.length(), t);
    }

    /// `EX (SP),HL`.
    pub fn xthl(&mut self)
        ensures
            final(self)@ =~= old(self)@.xthl(),
    {
        let hl = self.read_pair(Register::HL);
        let top = self.read16(self.reg.sp);
        self.write16(self.reg.sp, hl);
        self.write_pair(Register::HL, top);
        self.advance(1, 19);
    }

    /// `EX DE,HL`.
    pub fn ex_de_hl(&mut self)
        ensures
            final(self)@ =~= old(self)@.ex_de_hl(),
    {
        let r = self.reg;
        self.reg = Registers { d: r.h, e: r.l, h: r.d, l: r.e, ..r };
        self.advance(1, 4);
    }

    /// `EX AF,AF'`.
    pub fn ex_af_af(&mut self)
        ensures
            final(self)@ =~= old(self)@.ex_af_af(),
    {
        let a = self.reg.a;
        self.reg.a = self.reg.a_;
        self.reg.a_ = a;
        self.flags.swap();
        self.advance(1, 4);
    }

    /// `EXX`.
    pub fn exx(&mut self)
        ensures
            final(self)@ =~= old(self)@.exx(),
    {
        let r = self.reg;
        self.reg = Registers {
            b: r.b_,
            c: r.c_,
            d: r.d_,
            e: r.e_,
            h: r.h_,
            l: r.l_,
            b_: r.b,
            c_: r.c,
            d_: r.d,
            e_: r.e,
            h_: r.h,
            l_: r.l,
            ..r
        };
        self.advance(1, 4);
    }
}

} // verus!
