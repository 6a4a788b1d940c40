//! Flag arithmetic: parity, half carry, signed overflow, and the
//! operations of the accumulator that set them.

use vstd::prelude::*;
use crate::bits::{bit_of, lemma_wrap8, low_byte, popcount, signed16, signed8, wrap8};
use crate::cpu::{Cpu, Flags, Registers};
use crate::machine::Machine;

verus! {

/// 1 for a set carry, 0 for a clear one.
pub open spec fn carry_in(c: bool) -> int {
    if c {
        1
    } else {
        0
    }
}

/// A byte has even parity when the number of its set bits is even.
#[verifier::opaque]
pub open spec fn even_parity(v: u8) -> bool {
    popcount(v) % 2 == 0
}

/// Carry out of bit 3 when `a`, `b` and the carry `c` are added.
#[verifier::opaque]
pub open spec fn half_add(a: u8, b: u8, c: bool) -> bool {
    a as int % 16 + b as int % 16 + carry_in(c) > 15
}

/// Borrow into bit 3 when `b` and the borrow `c` are subtracted from `a`.
#[verifier::opaque]
pub open spec fn half_sub(a: u8, b: u8, c: bool) -> bool {
    a as int % 16 - b as int % 16 - carry_in(c) < 0
}

/// Carry out of bit 11 when `a`, `b` and the carry `c` are added.
#[verifier::opaque]
pub open spec fn half_add_w(a: u16, b: u16, c: bool) -> bool {
    a as int % 0x1000 + b as int % 0x1000 + carry_in(c) > 0xFFF
}

/// Borrow into bit 11 when `b` and the borrow `c` are subtracted from `a`.
#[verifier::opaque]
pub open spec fn half_sub_w(a: u16, b: u16, c: bool) -> bool {
    a as int % 0x1000 - b as int % 0x1000 - carry_in(c) < 0
}

/// The sum of two signed bytes and a carry does not fit in a signed byte.
#[verifier::opaque]
pub open spec fn overflow_add(a: u8, b: u8, c: bool) -> bool {
    let s = signed8(a) + signed8(b) + carry_in(c);
    s < -128 || s > 127
}

/// The difference of two signed bytes and a borrow does not fit in a signed byte.
#[verifier::opaque]
pub open spec fn overflow_sub(a: u8, b: u8, c: bool) -> bool {
    let s = signed8(a) - signed8(b) - carry_in(c);
    s < -128 || s > 127
}

/// The sum of two signed words and a carry does not fit in a signed word.
#[verifier::opaque]
pub open spec fn overflow_add_w(a: u16, b: u16, c: bool) -> bool {
    let s = signed16(a) + signed16(b) + carry_in(c);
    s < -0x8000 || s > 0x7FFF
}

/// The difference of two signed words and a borrow does not fit in a signed word.
#[verifier::opaque]
pub open spec fn overflow_sub_w(a: u16, b: u16, c: bool) -> bool {
    let s = signed16(a) - signed16(b) - carry_in(c);
    s < -0x8000 || s > 0x7FFF
}

/// The sign rule for addition: the operands agree in sign and the result does not.
pub open spec fn sign_rule_add(a: int, b: int, r: int) -> bool {
    ((a < 0) == (b < 0)) && ((a < 0) != (r < 0))
}

/// The sign rule for subtraction: the operands differ in sign and the
/// result has the sign of the subtrahend.
pub open spec fn sign_rule_sub(a: int, b: int, r: int) -> bool {
    ((a < 0) != (b < 0)) && ((a < 0) != (r < 0))
}

/// For a sum that was reduced modulo 256, the sign rule tells signed overflow.
pub proof fn lemma_sign_rule_add(a: u8, b: u8, c: bool)
    ensures
        sign_rule_add(signed8(a), signed8(b), signed8(wrap8(a + b + carry_in(c)))) == overflow_add(
            a,
            b,
            c,
        ),
{
    reveal(overflow_add);
}

/// For a difference that was reduced modulo 256, the sign rule tells signed overflow.
pub proof fn lemma_sign_rule_sub(a: u8, b: u8, c: bool)
    ensures
        sign_rule_sub(signed8(a), signed8(b), signed8(wrap8(a - b - carry_in(c)))) == overflow_sub(
            a,
            b,
            c,
        ),
{
    reveal(overflow_sub);
}

/// A byte as the signed number it encodes.
pub fn to_signed(v: u8) -> (r: i8)
    ensures
        r as int == signed8(v),
{
    if v >= 128 {
        let low: u8 = v - 128;
        (low as i8) - 127 - 1
    } else {
        v as i8
    }
}

/// Half carry of `a + b + carry`: the carry out of bit 3.
pub fn half_carry(a: u8, b: u8, carry: bool) -> (h: bool)
    ensures
        h == half_add(a, b, carry),
{
    let c: u8 = if carry { 1 } else { 0 };
    reveal(half_add);
    assert(c <= 1 ==> ((((a & 0x0F) + (b & 0x0F) + c) as u8) & 0x10 != 0) == (a % 16 + b % 16 + c
        > 15) && (a & 0x0F) + (b & 0x0F) + c < 32) by (bit_vector);
    let s: u8 = (a & 0x0F) + (b & 0x0F) + c;
    (s & 0x10) != 0
}

/// Half borrow of `a - b - carry`: the borrow into bit 3.
pub fn half_borrow(a: u8, b: u8, carry: bool) -> (h: bool)
    ensures
        h == half_sub(a, b, carry),
{
    let c: u8 = if carry { 1 } else { 0 };
    reveal(half_sub);
    assert((a & 0x0F) == a % 16 && (b & 0x0F) == b % 16) by (bit_vector);
    (a & 0x0F) < (b & 0x0F) + c
}

impl Cpu {
    /// Whether `value` has an even number of set bits.
    pub fn parity(&self, value: u8) -> (p: bool)
        ensures
            p == even_parity(value),
    {
        let x: u8 = value ^ (value >> 4);
        let y: u8 = x ^ (x >> 2);
        let z: u8 = y ^ (y >> 1);
        let p = (z & 1) == 0;
        reveal(even_parity);
        assert(p == (popcount(value) % 2 == 0)) by (bit_vector)
            requires
                x == value ^ (value >> 4),
                y == x ^ (x >> 2),
                z == y ^ (y >> 1),
                p == ((z & 1) == 0),
        ;
        p
    }

    /// Half carry of `a + b`: the carry out of bit 3.
    pub fn hf_add(&self, a: u8, b: u8) -> (h: bool)
        ensures
            h == half_add(a, b, false),
    {
        half_carry(a, b, false)
    }

    /// Half carry of a 16-bit addition: the carry out of bit 11. With
    /// `carry`, the carry flag is added in.
    pub fn hf_add_w(&self, a: u16, b: u16, carry: bool) -> (h: bool)
        ensures
            h == half_add_w(a, b, carry && self.flags.cf),
    {
        let c: u16 = if carry && self.flags.cf { 1 } else { 0 };
        reveal(half_add_w);
        assert((a & 0x0FFF) == a % 0x1000 && (b & 0x0FFF) == b % 0x1000) by (bit_vector);
        let s: u16 = (a & 0x0FFF) + (b & 0x0FFF) + c;
        s > 0x0FFF
    }

    /// Half borrow of `a - b`: the borrow into bit 3.
    pub fn hf_sub(&self, a: u8, b: u8) -> (h: bool)
        ensures
            h == half_sub(a, b, false),
    {
        half_borrow(a, b, false)
    }

    /// Half borrow of a 16-bit subtraction: the borrow into bit 11. With
    /// `carry`, the carry flag is subtracted too.
    pub fn hf_sub_w(&self, a: u16, b: u16, carry: bool) -> (h: bool)
        ensures
            h == half_sub_w(a, b, carry && self.flags.cf),
    {
        let c: u16 = if carry && self.flags.cf { 1 } else { 0 };
        reveal(half_sub_w);
        assert((a & 0x0FFF) == a % 0x1000 && (b & 0x0FFF) == b % 0x1000) by (bit_vector);
        (a & 0x0FFF) < (b & 0x0FFF) + c
    }

    /// The sign rule for the overflow of an addition with result `result`.
    pub fn overflow(&self, a: i8, b: i8, result: i8) -> (v: bool)
        ensures
            v == sign_rule_add(a as int, b as int, result as int),
    {
        ((a < 0) == (b < 0)) && ((a < 0) != (result < 0))
    }

    /// The sign rule for the overflow of a subtraction with result `result`.
    pub fn overflow_sub(&self, a: i8, b: i8, result: i8) -> (v: bool)
        ensures
            v == sign_rule_sub(a as int, b as int, result as int),
    {
        ((a < 0) != (b < 0)) && ((a < 0) != (result < 0))
    }
}

impl Flags {
    /// These flags with S, Z, Y and X taken from the byte `r`: its top bit,
    /// whether it is zero, its bit 5 and its bit 3.
    pub open spec fn with_result(self, r: u8) -> Flags {
        Flags { sf: bit_of(r, 7), zf: r == 0, yf: bit_of(r, 5), xf: bit_of(r, 3), ..self }
    }

    /// Sets S, Z, Y and X from the byte `r`.
    pub fn set_result(&mut self, r: u8)
        ensures
            *final(self) == old(self).with_result(r),
    {
        self.sf = (r & 0x80) != 0;
        self.zf = r == 0;
        self.yf = (r & 0x20) != 0;
        self.xf = (r & 0x08) != 0;
    }
}

impl Machine {
    /// A becomes A + `value` + `carry` modulo 256. S, Z, Y, X come from the
    /// result, H is the carry out of bit 3, P/V is signed overflow, N is
    /// cleared, C is the carry out of bit 7.
    pub open spec fn add_a(self, value: u8, carry: bool) -> Machine {
        let a = self.reg.a;
        let r = wrap8(a + value + carry_in(carry));
        Machine {
            reg: Registers { a: r, ..self.reg },
            flags: Flags {
                hf: half_add(a, value, carry),
                pf: overflow_add(a, value, carry),
                nf: false,
                cf: a + value + carry_in(carry) > 255,
                ..self.flags.with_result(r)
            },
            ..self
        }
    }

    /// The flags of A - `value` - `carry`, with Y and X taken from `yx`: S
    /// and Z come from the difference, H is the borrow into bit 3, P/V is
    /// signed overflow, N is set, C is the borrow out of bit 7.
    pub open spec fn sub_flags(self, value: u8, carry: bool, yx: u8) -> Flags {
        let a = self.reg.a;
        let r = wrap8(a - value - carry_in(carry));
        Flags {
            sf: bit_of(r, 7),
            zf: r == 0,
            yf: bit_of(yx, 5),
            hf: half_sub(a, value, carry),
            xf: bit_of(yx, 3),
            pf: overflow_sub(a, value, carry),
            nf: true,
            cf: a - value - carry_in(carry) < 0,
            ..self.flags
        }
    }

    /// A becomes A - `value` - `carry` modulo 256, with the flags of the
    /// subtraction and Y, X from the result.
    pub open spec fn sub_a(self, value: u8, carry: bool) -> Machine {
        let r = wrap8(self.reg.a - value - carry_in(carry));
        Machine {
            reg: Registers { a: r, ..self.reg },
            flags: self.sub_flags(value, carry, r),
            ..self
        }
    }

    /// A is compared with `value`: the flags of A - `value`, with Y and X
    /// taken from `value`; A stays.
    pub open spec fn compare_a(self, value: u8) -> Machine {
        Machine { flags: self.sub_flags(value, false, value), ..self }
    }

    /// A becomes `r`, the result of a logic operation. S, Z, Y, X come from
    /// `r`, P/V is its parity, H is `h`, N and C are cleared.
    pub open spec fn logic_a(self, r: u8, h: bool) -> Machine {
        Machine {
            reg: Registers { a: r, ..self.reg },
            flags: Flags {
                hf: h,
                pf: even_parity(r),
                nf: false,
                cf: false,
                ..self.flags.with_result(r)
            },
            ..self
        }
    }

    /// The flags after a byte `v` was incremented: S, Z, Y, X from the
    /// result, H the carry out of bit 3, P/V set when `v` was 0x7F, N
    /// cleared, C kept.
    pub open spec fn inc_flags(self, v: u8) -> Flags {
        Flags {
            hf: half_add(v, 1, false),
            pf: v == 0x7F,
            nf: false,
            ..self.flags.with_result(wrap8(v + 1))
        }
    }

    /// The flags after a byte `v` was decremented: S, Z, Y, X from the
    /// result, H the borrow into bit 3, P/V set when `v` was 0x80, N set,
    /// C kept.
    pub open spec fn dec_flags(self, v: u8) -> Flags {
        Flags {
            hf: half_sub(v, 1, false),
            pf: v == 0x80,
            nf: true,
            ..self.flags.with_result(wrap8(v - 1))
        }
    }
}

impl Cpu {
    /// Adds `value` and, if `carry`, one more to the accumulator.
    pub fn add_a(&mut self, value: u8, carry: bool)
        ensures
            final(self)@ =~= old(self)@.add_a(value, carry),
    {
        let a = self.reg.a;
        let c: u16 = if carry { 1 } else { 0 };
        let sum: u16 = a as u16 + value as u16 + c;
        let r = low_byte(sum);
        let h = half_carry(a, value, carry);
        let v = self.overflow(to_signed(a), to_signed(value), to_signed(r));
        proof {
            lemma_sign_rule_add(a, value, carry);
        }
        self.flags.set_result(r);
        self.flags = Flags { hf: h, pf: v, nf: false, cf: sum > 0xFF, ..self.flags };
        self.reg.a = r;
    }

    /// Sets the flags of A - `value` - `carry`, with Y and X from the
    /// difference if `yx_of_result` and from `value` if not; returns the
    /// difference.
    pub fn sub_flags(&mut self, value: u8, carry: bool, yx_of_result: bool) -> (r: u8)
        ensures
            r == wrap8(old(self).reg.a - value - carry_in(carry)),
            final(self)@ =~= (Machine {
                flags: old(self)@.sub_flags(value, carry, if yx_of_result { r } else { value }),
                ..old(self)@
            }),
    {
        let a = self.reg.a;
        let c: u16 = if carry { 1 } else { 0 };
        let diff: u16 = 0x100 + a as u16 - value as u16 - c;
        let r = low_byte(diff);
        let h = half_borrow(a, value, carry);
        let v = self.overflow_sub(to_signed(a), to_signed(value), to_signed(r));
        proof {
            lemma_sign_rule_sub(a, value, carry);
            lemma_wrap8(a - value - c, 0, 0);
        }
        let yx = if yx_of_result { r } else { value };
        self.flags = Flags {
            sf: (r & 0x80) != 0,
            zf: r == 0,
            yf: (yx & 0x20) != 0,
            hf: h,
            xf: (yx & 0x08) != 0,
            pf: v,
            nf: true,
            cf: diff < 0x100,
            ..self.flags
        };
        r
    }

    /// Subtracts `value` and, if `carry`, one more from the accumulator.
    pub fn sub_a(&mut self, value: u8, carry: bool)
        ensures
            final(self)@ =~= old(self)@.sub_a(value, carry),
    {
        let r = self.sub_flags(value, carry, true);
        self.reg.a = r;
    }

    /// Compares the accumulator with `value`.
    pub fn compare_a(&mut self, value: u8)
        ensures
            final(self)@ =~= old(self)@.compare_a(value),
    {
        let _ = self.sub_flags(value, false, false);
    }

    /// Stores the result `r` of a logic operation in the accumulator.
    pub fn logic_a(&mut self, r: u8, h: bool)
        ensures
            final(self)@ =~= old(self)@.logic_a(r, h),
    {
        let p = self.parity(r);
        self.flags.set_result(r);
        self.flags = Flags { hf: h, pf: p, nf: false, cf: false, ..self.flags };
        self.reg.a = r;
    }

    /// Sets the flags for the increment of `v` and returns `v + 1` modulo 256.
    pub fn inc_flags(&mut self, v: u8) -> (r: u8)
        ensures
            r == wrap8(v + 1),
            final(self)@ =~= (Machine { flags: old(self)@.inc_flags(v), ..old(self)@ }),
    {
        let r = v.wrapping_add(1);
        let h = self.hf_add(v, 1);
        proof {
            lemma_wrap8(0, v, 1);
        }
        self.flags.set_result(r);
        self.flags = Flags { hf: h, pf: v == 0x7F, nf: false, ..self.flags };
        r
    }

    /// Sets the flags for the decrement of `v` and returns `v - 1` modulo 256.
    pub fn dec_flags(&mut self, v: u8) -> (r: u8)
        ensures
            r == wrap8(v - 1),
            final(self)@ =~= (Machine { flags: old(self)@.dec_flags(v), ..old(self)@ }),
    {
        let r = v.wrapping_sub(1);
        let h = self.hf_sub(v, 1);
        proof {
            lemma_wrap8(0, v, 1);
        }
        self.flags.set_result(r);
        self.flags = Flags { hf: h, pf: v == 0x80, nf: true, ..self.flags };
        r
    }
}

} // verus!
