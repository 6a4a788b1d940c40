//! The 16-bit arithmetic instructions.

use vstd::prelude::*;
use crate::alu::{
    carry_in, half_add_w, half_sub_w, overflow_add_w, overflow_sub_w, sign_rule_add,
    sign_rule_sub,
};
use crate::bits::{bit_of, high, high_byte, lemma_wrap16, signed16, wrap16};
use crate::cpu::{Cpu, Flags};
use crate::instruction_info::Register;
use crate::machine::Machine;

verus! {

impl Register {
    /// A pair that 16-bit arithmetic on HL takes: BC, DE, HL or SP.
    pub open spec fn is_wide_operand(self) -> bool {
        self == Register::BC || self == Register::DE || self == Register::HL || self
            == Register::SP
    }

    /// A pair that can be incremented, decremented and loaded: BC, DE, HL,
    /// SP, IX or IY.
    pub open spec fn is_counter(self) -> bool {
        self.is_wide_operand() || self == Register::IX || self == Register::IY
    }

    /// The destination and the source of a 16-bit `ADD`: HL, IX or IY, with
    /// BC, DE, SP or the destination itself.
    pub open spec fn is_add_form(dst: Register, src: Register) -> bool {
        (dst == Register::HL || dst == Register::IX || dst == Register::IY) && (src == dst || src
            == Register::BC || src == Register::DE || src == Register::SP)
    }
}

/// For a sum of words that was reduced modulo 65536, the sign rule tells
/// signed overflow.
pub proof fn lemma_sign_rule_add_w(a: u16, b: u16, c: bool)
    ensures
        sign_rule_add(signed16(a), signed16(b), signed16(wrap16(a + b + carry_in(c))))
            == overflow_add_w(a, b, c),
{
    reveal(overflow_add_w);
}

/// For a difference of words that was reduced modulo 65536, the sign rule
/// tells signed overflow.
pub proof fn lemma_sign_rule_sub_w(a: u16, b: u16, c: bool)
    ensures
        sign_rule_sub(signed16(a), signed16(b), signed16(wrap16(a - b - carry_in(c))))
            == overflow_sub_w(a, b, c),
{
    reveal(overflow_sub_w);
}

impl Machine {
    /// `ADD dst,src` on pairs: the destination plus the source, modulo
    /// 65536. C is the carry out of bit 15, H the carry out of bit 11, N is
    /// cleared, Y and X are bits 13 and 11 of the result; S, Z and P/V stay.
    pub open spec fn add_rp(self, dst: Register, src: Register) -> Machine {
        let a = self.read_pair(dst);
        let b = self.read_pair(src);
        let r = wrap16(a + b);
        let m = Machine {
            flags: Flags {
                yf: bit_of(high(r), 5),
                hf: half_add_w(a, b, false),
                xf: bit_of(high(r), 3),
                nf: false,
                cf: a + b > 0xFFFF,
                ..self.flags
            },
            ..self
        };
        m.write_pair(dst, r).advance(dst.operand_len(), if dst == Register::HL {
            11
        } else {
            15
        })
    }

    /// `ADD HL,rp`.
    pub open spec fn add_hl(self, reg: Register) -> Machine {
        self.add_rp(Register::HL, reg)
    }

    /// `ADC HL,rp`: HL plus the pair plus the carry flag, modulo 65536. S
    /// and Z come from the 16-bit result, P/V is signed overflow, H the carry
    /// out of bit 11, C the carry out of bit 15, N is cleared, Y and X are
    /// bits 13 and 11 of the result.
    pub open spec fn adc_hl(self, reg: Register) -> Machine {
        let a = self.read_pair(Register::HL);
        let b = self.read_pair(reg);
        let c = self.flags.cf;
        let r = wrap16(a + b + carry_in(c));
        let m = Machine {
            flags: Flags {
                sf: bit_of(high(r), 7),
                zf: r == 0,
                yf: bit_of(high(r), 5),
                hf: half_add_w(a, b, c),
                xf: bit_of(high(r), 3),
                pf: overflow_add_w(a, b, c),
                nf: false,
                cf: a + b + carry_in(c) > 0xFFFF,
                ..self.flags
            },
            ..self
        };
        m.write_pair(Register::HL, r).advance(2, 15)
    }

    /// `SBC HL,rp`: HL minus the pair minus the carry flag, modulo 65536,
    /// with the flags as for `ADC HL,rp` but for borrows, and N set.
    pub open spec fn sbc_hl(self, reg: Register) -> Machine {
        let a = self.read_pair(Register::HL);
        let b = self.read_pair(reg);
        let c = self.flags.cf;
        let r = wrap16(a - b - carry_in(c));
        let m = Machine {
            flags: Flags {
                sf: bit_of(high(r), 7),
                zf: r == 0,
                yf: bit_of(high(r), 5),
                hf: half_sub_w(a, b, c),
                xf: bit_of(high(r), 3),
                pf: overflow_sub_w(a, b, c),
                nf: true,
                cf: a - b - carry_in(c) < 0,
                ..self.flags
            },
            ..self
        };
        m.write_pair(Register::HL, r).advance(2, 15)
    }

    /// `INC rp`: the pair plus one, modulo 65536; no flag changes.
    pub open spec fn inc_rp(self, reg: Register) -> Machine {
        self.write_pair(reg, self.read_pair(reg).wrapping_add(1)).advance(
            reg.operand_len(),
            if reg.is_indexed() {
                10
            } else {
                6
            },
        )
    }

    /// `DEC rp`: the pair minus one, modulo 65536; no flag changes.
    pub open spec fn dec_rp(self, pair: Register) -> Machine {
        self.write_pair(pair, self.read_pair(pair).wrapping_sub(1)).advance(
            pair.operand_len(),
            if pair.is_indexed() {
                10
            } else {
                6
            },
        )
    }
}

impl Cpu {
    /// `ADD dst,src` on pairs, with HL, IX or IY as the destination.
    pub fn add_rp(&mut self, dst: Register, src: Register)
        requires
            Register::is_add_form(dst, src),
        ensures
            final(self)@ =~= old(self)@.add_rp(dst, src),
    {
        let a = self.read_pair(dst);
        let b = self.read_pair(src);
        let sum: u32 = a as u32 + b as u32;
        let carry = sum > 0xFFFF;
        let r: u16 = if carry { (sum - 0x1_0000) as u16 } else { sum as u16 };
        let h = self.hf_add_w(a, b, false);
        let top = high_byte(r);
        proof {
            lemma_wrap16(a + b - 0x1_0000, r, 0);
        }
        self.flags = Flags {
            yf: (top & 0x20) != 0,
            hf: h,
            xf: (top & 0x08) != 0,
            nf: false,
            cf: carry,
            ..self.flags
        };
        self.write_pair(dst, r);
        let t: usize = if dst == Register::HL { 11 } else { 15 };
        self.advance(dst.length(), t);
    }

    /// `ADD HL,rp`.
    pub fn add_hl(&mut self, reg: Register)
        requires
            reg.is_wide_operand(),
        ensures
            final(self)@ =~= old(self)@.add_hl(reg),
    {
        self.add_rp(Register::HL, reg);
    }

    /// `ADC HL,rp`.
    pub fn adc_hl(&mut self, reg: Register)
        requires
            reg.is_wide_operand(),
        ensures
            final(self)@ =~= old(self)@.adc_hl(reg),
    {
        let a = self.read_pair(Register::HL);
        let b = self.read_pair(reg);
        let c: u32 = if self.flags.cf { 1 } else { 0 };
        let sum: u32 = a as u32 + b as u32 + c;
        let carry = sum > 0xFFFF;
        let r: u16 = if carry { (sum - 0x1_0000) as u16 } else { sum as u16 };
        let h = self.hf_add_w(a, b, true);
        let top = high_byte(r);
        let v = ((a >= 0x8000) == (b >= 0x8000)) && ((a >= 0x8000) != (r >= 0x8000));
        proof {
            lemma_wrap16(a + b + c - 0x1_0000, r, 0);
            lemma_sign_rule_add_w(a, b, self.flags.cf);
        }
        self.flags = Flags {
            sf: (top & 0x80) != 0,
            zf: r == 0,
            yf: (top & 0x20) != 0,
            hf: h,
            xf: (top & 0x08) != 0,
            pf: v,
            nf: false,
            cf: carry,
            ..self.flags
        };
        self.write_pair(Register::HL, r);
        self.advance(2, 15);
    }

    /// `SBC HL,rp`.
    pub fn sbc_hl(&mut self, reg: Register)
        requires
            reg.is_wide_operand(),
        ensures
            final(self)@ =~= old(self)@.sbc_hl(reg),
    {
        let a = self.read_pair(Register::HL);
        let b = self.read_pair(reg);
        let c: u32 = if self.flags.cf { 1 } else { 0 };
        let borrow = (a as u32) < b as u32 + c;
        let r: u16 = if borrow {
            (a as u32 + 0x1_0000 - b as u32 - c) as u16
        } else {
            (a as u32 - b as u32 - c) as u16
        };
        let h = self.hf_sub_w(a, b, true);
        let top = high_byte(r);
        let v = ((a >= 0x8000) != (b >= 0x8000)) && ((a >= 0x8000) != (r >= 0x8000));
        proof {
            lemma_wrap16(a - b - c, r, 0);
            lemma_sign_rule_sub_w(a, b, self.flags.cf);
        }
        self.flags = Flags {
            sf: (top & 0x80) != 0,
            zf: r == 0,
            yf: (top & 0x20) != 0,
            hf: h,
            xf: (top & 0x08) != 0,
            pf: v,
            nf: true,
            cf: borrow,
            ..self.flags
        };
        self.write_pair(Register::HL, r);
        self.advance(2, 15);
    }

    /// `INC rp`.
    pub fn inc_rp(&mut self, reg: Register)
        requires
            reg.is_counter(),
        ensures
            final(self)@ =~= old(self)@.inc_rp(reg),
    {
        let value = self.read_pair(reg).wrapping_add(1);
        self.write_pair(reg, value);
        let t: usize = if reg.indexed() { 10 } else { 6 };
        self.advance(reg.length(), t);
    }

    /// `DEC rp`.
    pub fn dec_rp(&mut self, pair: Register)
        requires
            pair.is_counter(),
        ensures
            final(self)@ =~= old(self)@.dec_rp(pair),
    {
        let value = self.read_pair(pair).wrapping_sub(1);
        self.write_pair(pair, value);
        let t: usize = if pair.indexed() { 10 } else { 6 };
        self.advance(pair.length(), t);
    }
}

} // verus!
