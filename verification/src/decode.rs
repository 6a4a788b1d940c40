//! The executable decoders of the opcode planes.

use vstd::prelude::*;
use crate::cpu::Cpu;
use crate::instruction_info::Register;
use crate::plane::{code_y, code_z, extended_known, primary_known, select_shift, uses_index};
use crate::rotate::Shift;

verus! {

/// Bits 0 to 2 of an opcode.
pub fn low_code(op: u8) -> (z: u8)
    ensures
        z == code_z(op),
        z < 8,
{
    assert((op & 7) == op % 8) by (bit_vector);
    op & 7
}

/// Bits 3 to 5 of an opcode.
pub fn mid_code(op: u8) -> (y: u8)
    ensures
        y == code_y(op),
        y < 8,
{
    assert(((op >> 3) & 7) == op / 8 % 8) by (bit_vector);
    (op >> 3) & 7
}

/// Whether an index prefix changes what the opcode does.
pub fn names_index(op: u8) -> (b: bool)
    ensures
        b == uses_index(op),
{
    let z = low_code(op);
    let y = mid_code(op);
    let hl_y = y == 4 || y == 5 || y == 6;
    let hl_z = z == 4 || z == 5 || z == 6;
    if op < 0x40 {
        matches!(op, 0x09 | 0x19 | 0x21 | 0x22 | 0x23 | 0x29 | 0x2A | 0x2B | 0x39) || (hl_z
            && hl_y)
    } else if op < 0x80 {
        op != 0x76 && (hl_y || hl_z)
    } else if op < 0xC0 {
        hl_z
    } else {
        matches!(op, 0xE1 | 0xE5 | 0xE9)
    }
}

impl Register {
    /// The high half of HL, IX or IY.
    pub fn high(self) -> (r: Register)
        ensures
            r == self.high_half(),
    {
        match self {
            Register::IX => Register::IXH,
            Register::IY => Register::IYH,
            _ => Register::H,
        }
    }

    /// The low half of HL, IX or IY.
    pub fn low(self) -> (r: Register)
        ensures
            r == self.low_half(),
    {
        match self {
            Register::IX => Register::IXL,
            Register::IY => Register::IYL,
            _ => Register::L,
        }
    }

    /// The byte in memory that HL, IX or IY points at.
    pub fn target(self) -> (r: Register)
        ensures
            r == self.pointee(),
    {
        match self {
            Register::IX => Register::IxIm,
            Register::IY => Register::IyIm,
            _ => Register::HL,
        }
    }

    /// The byte operand that a three-bit code selects.
    pub fn operand(z: u8, index: Register) -> (r: Register)
        ensures
            r == Register::select(z as int, index),
    {
        match z {
            0 => Register::B,
            1 => Register::C,
            2 => Register::D,
            3 => Register::E,
            4 => index.high(),
            5 => index.low(),
            6 => index.target(),
            _ => Register::A,
        }
    }
}

/// The rotate or shift that a three-bit code selects.
pub fn shift_kind(y: u8) -> (k: Shift)
    ensures
        k == select_shift(y as int),
{
    match y {
        0 => Shift::Rlc,
        1 => Shift::Rrc,
        2 => Shift::Rl,
        3 => Shift::Rr,
        4 => Shift::Sla,
        5 => Shift::Sra,
        6 => Shift::Sll,
        _ => Shift::Srl,
    }
}

impl Register {
    /// The pair that a two-bit code selects.
    pub fn pair(p: u8, index: Register) -> (r: Register)
        ensures
            r == Register::select_pair(p as int, index),
    {
        match p {
            0 => Register::BC,
            1 => Register::DE,
            2 => index,
            _ => Register::SP,
        }
    }

    /// The pair that a two-bit code selects for `PUSH` and `POP`.
    pub fn stack_pair(p: u8, index: Register) -> (r: Register)
        requires
            p < 4,
        ensures
            r == Register::select_stack(p as int, index),
    {
        match p {
            0 => Register::BC,
            1 => Register::DE,
            2 => index,
            _ => Register::AF,
        }
    }
}

impl Cpu {
    /// Whether the condition that a three-bit code selects holds.
    pub fn condition(&self, y: u8) -> (c: bool)
        ensures
            c == self@.condition(y as int),
    {
        match y {
            0 => !self.flags.zf,
            1 => self.flags.zf,
            2 => !self.flags.cf,
            3 => self.flags.cf,
            4 => !self.flags.pf,
            5 => self.flags.pf,
            6 => !self.flags.sf,
            _ => self.flags.sf,
        }
    }

    /// Runs one of the opcodes 0x00 to 0x3F.
    pub fn quarter0(&mut self, op: u8, index: Register)
        requires
            op < 0x40,
            index.is_pointer(),
            primary_known(op, index),
        ensures
            final(self)@ =~= old(self)@.quarter0(op, index),
    {
        let z = low_code(op);
        let y = mid_code(op);
        let p = y / 2;
        let q = y % 2;
        let rp = Register::pair(p, index);
        let r = Register::operand(y, index);
        if z == 0 {
            if y == 0 {
                self.nop()
            } else if y == 1 {
                self.ex_af_af()
            } else if y == 2 {
                self.djnz()
            } else if y == 3 {
                self.jr_cond(true)
            } else {
                let c = self.condition(y - 4);
                self.jr_cond(c)
            }
        } else if z == 1 {
            if q == 0 {
                self.ld_rp_nn(rp)
            } else {
                self.add_rp(index, rp)
            }
        } else if z == 2 {
            if p == 0 {
                if q == 0 {
                    self.ld(Register::BC, Register::A)
                } else {
                    self.ld(Register::A, Register::BC)
                }
            } else if p == 1 {
                if q == 0 {
                    self.ld(Register::DE, Register::A)
                } else {
                    self.ld_reg_mem_rp(Register::DE)
                }
            } else if p == 2 {
                if q == 0 {
                    self.shld(index)
                } else {
                    self.lhld(index)
                }
            } else {
                if q == 0 {
                    self.ld_nn_r()
                } else {
                    self.ld_r_mem_nn()
                }
            }
        } else if z == 3 {
            if q == 0 {
                self.inc_rp(rp)
            } else {
                self.dec_rp(rp)
            }
        } else if z == 4 {
            self.inc(r)
        } else if z == 5 {
            self.dec(r)
        } else if z == 6 {
            self.mvi(r)
        } else {
            if y == 0 {
                self.rlca()
            } else if y == 1 {
                self.rrca()
            } else if y == 2 {
                self.rla()
            } else if y == 3 {
                self.rra()
            } else if y == 4 {
                self.daa()
            } else if y == 5 {
                self.cpl()
            } else if y == 6 {
                self.scf()
            } else {
                self.ccf()
            }
        }
    }

    /// Runs one of the opcodes 0x40 to 0x7F.
    pub fn quarter1(&mut self, op: u8, index: Register)
        requires
            0x40 <= op < 0x80,
            index.is_pointer(),
            primary_known(op, index),
        ensures
            final(self)@ =~= old(self)@.quarter1(op, index),
    {
        let z = low_code(op);
        let y = mid_code(op);
        if op == 0x76 {
            self.halt()
        } else if y == 6 {
            self.ld(index.target(), Register::operand(z, Register::HL))
        } else if z == 6 {
            self.ld(Register::operand(y, Register::HL), index.target())
        } else {
            self.ld(Register::operand(y, index), Register::operand(z, index))
        }
    }

    /// Runs one of the opcodes 0x80 to 0xBF.
    pub fn quarter2(&mut self, op: u8, index: Register)
        requires
            0x80 <= op < 0xC0,
            index.is_pointer(),
            primary_known(op, index),
        ensures
            final(self)@ =~= old(self)@.quarter2(op, index),
    {
        let y = mid_code(op);
        let r = Register::operand(low_code(op), index);
        if y == 0 {
            self.add(r)
        } else if y == 1 {
            self.adc(r)
        } else if y == 2 {
            self.sub(r)
        } else if y == 3 {
            self.sbc(Register::A, r)
        } else if y == 4 {
            self.and(r)
        } else if y == 5 {
            self.xor(r)
        } else if y == 6 {
            self.ora(r)
        } else {
            self.cmp(r)
        }
    }

    /// Runs one of the opcodes 0xC0 to 0xFF that is no prefix byte.
    pub fn quarter3(&mut self, op: u8, index: Register)
        requires
            0xC0 <= op,
            index.is_pointer(),
            primary_known(op, index),
        ensures
            final(self)@ =~= old(self)@.quarter3(op, index),
    {
        let z = low_code(op);
        let y = mid_code(op);
        let p = y / 2;
        let q = y % 2;
        if z == 0 {
            let c = self.condition(y);
            self.ret_cond(c)
        } else if z == 1 {
            if q == 0 {
                self.pop(Register::stack_pair(p, index))
            } else if p == 0 {
                self.ret()
            } else if p == 1 {
                self.exx()
            } else if p == 2 {
                if index == Register::HL {
                    self.pchl()
                } else {
                    let addr = self.read_pair(index);
                    self.jp(addr, 8)
                }
            } else {
                self.sphl()
            }
        } else if z == 2 {
            let c = self.condition(y);
            self.jp_cond(c)
        } else if z == 3 {
            if y == 0 {
                self.jp_cond(true)
            } else if y == 2 {
                self.out(Register::A)
            } else if y == 3 {
                self.in_a()
            } else if y == 4 {
                self.xthl()
            } else if y == 5 {
                self.ex_de_hl()
            } else if y == 6 {
                self.interrupt(false)
            } else {
                self.interrupt(true)
            }
        } else if z == 4 {
            let c = self.condition(y);
            let addr = self.imm16();
            self.call_cond(addr, c)
        } else if z == 5 {
            if q == 0 {
                self.push(Register::stack_pair(p, index))
            } else {
                let addr = self.imm16();
                self.call(addr)
            }
        } else if z == 6 {
            if y == 0 {
                self.adi()
            } else if y == 1 {
                self.adc_im()
            } else if y == 2 {
                self.sui()
            } else if y == 3 {
                self.sbi()
            } else if y == 4 {
                self.ani()
            } else if y == 5 {
                self.xri()
            } else if y == 6 {
                self.ori()
            } else {
                self.cp_im()
            }
        } else {
            self.rst(restart(y))
        }
    }

    /// Runs an opcode of the primary plane.
    pub fn primary(&mut self, op: u8, index: Register)
        requires
            index.is_pointer(),
            primary_known(op, index),
        ensures
            final(self)@ =~= old(self)@.primary(op, index),
    {
        if op < 0x40 {
            self.quarter0(op, index)
        } else if op < 0x80 {
            self.quarter1(op, index)
        } else if op < 0xC0 {
            self.quarter2(op, index)
        } else {
            self.quarter3(op, index)
        }
    }

    /// Runs an opcode of the CB plane.
    pub fn bits(&mut self, op: u8, index: Register)
        requires
            index.is_pointer(),
        ensures
            final(self)@ =~= old(self)@.bits(op, index),
    {
        let y = mid_code(op);
        let r = if index == Register::HL {
            Register::operand(low_code(op), index)
        } else {
            index.target()
        };
        if op < 0x40 {
            self.shift(shift_kind(y), r)
        } else if op < 0x80 {
            self.bit(y, r)
        } else if op < 0xC0 {
            self.res(y, r)
        } else {
            self.set(y, r)
        }
    }

    /// Runs an opcode of the ED plane.
    pub fn extended(&mut self, op: u8)
        requires
            extended_known(op),
        ensures
            final(self)@ =~= old(self)@.extended(op),
    {
        let z = low_code(op);
        let y = mid_code(op);
        let p = y / 2;
        let q = y % 2;
        let rp = Register::pair(p, Register::HL);
        if op == 0xA0 {
            self.ldi()
        } else if op == 0xA1 {
            self.cpi()
        } else if op == 0xA9 {
            self.cpd()
        } else if op == 0xB0 {
            self.ldir()
        } else if op == 0xB1 {
            self.cpir()
        } else if op == 0xB9 {
            self.cpdr()
        } else if z == 0 {
            self.in_c(Register::operand(y, Register::HL))
        } else if z == 2 {
            if q == 0 {
                self.sbc_hl(rp)
            } else {
                self.adc_hl(rp)
            }
        } else if z == 3 {
            if q == 0 {
                self.ld_mem_nn_rp(rp)
            } else {
                self.ld_rp_mem_nn(rp)
            }
        } else if z == 6 {
            let mode: u8 = if y % 4 < 2 { 0 } else if y % 4 == 2 { 1 } else { 2 };
            self.set_interrupt_mode(mode)
        } else {
            if y == 0 {
                self.ld(Register::I, Register::A)
            } else if y == 1 {
                self.ld(Register::R, Register::A)
            } else if y == 2 {
                self.ld(Register::A, Register::I)
            } else {
                self.ld(Register::A, Register::R)
            }
        }
    }
}

/// The address that `RST` with the three-bit code `y` calls: `y` times 8.
pub fn restart(y: u8) -> (addr: u16)
    requires
        y < 8,
    ensures
        addr == y * 8,
{
    (y as u16) * 8
}

} // verus!
