//! Rotates, shifts and the bit instructions.

use vstd::prelude::*;
use crate::alu::even_parity;
use crate::bits::{bit_of, mask};
use crate::cpu::{Cpu, Flags, Registers};
use crate::instruction_info::Register;
use crate::machine::Machine;

verus! {

/// The eight rotate and shift operations of the CB plane, in opcode order.
#[derive(Clone, Copy, Debug, PartialEq, Eq, Structural)]
pub enum Shift {
    /// Rotate left; bit 7 goes to bit 0 and to the carry.
    Rlc,
    /// Rotate right; bit 0 goes to bit 7 and to the carry.
    Rrc,
    /// Rotate left through the carry.
    Rl,
    /// Rotate right through the carry.
    Rr,
    /// Shift left; bit 0 becomes 0.
    Sla,
    /// Shift right; bit 7 stays.
    Sra,
    /// Shift left; bit 0 becomes 1.
    Sll,
    /// Shift right; bit 7 becomes 0.
    Srl,
}

/// The byte that a rotate or shift of `v` gives, with `c` the carry before it.
#[verifier::opaque]
pub open spec fn shifted(kind: Shift, v: u8, c: bool) -> u8 {
    let cin: int = if c {
        1
    } else {
        0
    };
    (match kind {
        Shift::Rlc => (v * 2) % 256 + v / 128,
        Shift::Rrc => v / 2 + 128 * (v % 2),
        Shift::Rl => (v * 2) % 256 + cin,
        Shift::Rr => v / 2 + 128 * cin,
        Shift::Sla => (v * 2) % 256,
        Shift::Sra => v / 2 + 128 * (v / 128),
        Shift::Sll => (v * 2) % 256 + 1,
        Shift::Srl => v as int / 2,
    }) as u8
}

/// The carry after a rotate or shift of `v`: the bit that left the byte,
/// bit 7 to the left and bit 0 to the right.
#[verifier::opaque]
pub open spec fn shifted_out(kind: Shift, v: u8) -> bool {
    match kind {
        Shift::Rlc | Shift::Rl | Shift::Sla | Shift::Sll => v >= 128,
        _ => v % 2 == 1,
    }
}

/// Rotates or shifts `v`; returns the new byte and the new carry.
pub fn shift8(kind: Shift, v: u8, c: bool) -> (r: (u8, bool))
    ensures
        r.0 == shifted(kind, v, c),
        r.1 == shifted_out(kind, v),
{
    let cin: u8 = if c { 1 } else { 0 };
    reveal(shifted);
    reveal(shifted_out);
    assert(cin <= 1 ==> ((v << 1) | (v >> 7)) == (v * 2) % 256 + v / 128 && ((v >> 1) | (v << 7))
        == v / 2 + 128 * (v % 2) && ((v << 1) | cin) == (v * 2) % 256 + cin && ((v >> 1) | (cin
        << 7)) == v / 2 + 128 * cin && (v << 1) == (v * 2) % 256 && ((v >> 1) | (v & 0x80)) == v
        / 2 + 128 * (v / 128) && ((v << 1) | 1) == (v * 2) % 256 + 1 && (v >> 1) == v / 2 && ((v
        & 0x80) != 0) == (v >= 128) && ((v & 1) != 0) == (v % 2 == 1)) by (bit_vector);
    match kind {
        Shift::Rlc => ((v << 1) | (v >> 7), (v & 0x80) != 0),
        Shift::Rrc => ((v >> 1) | (v << 7), (v & 1) != 0),
        Shift::Rl => ((v << 1) | cin, (v & 0x80) != 0),
        Shift::Rr => ((v >> 1) | (cin << 7), (v & 1) != 0),
        Shift::Sla => (v << 1, (v & 0x80) != 0),
        Shift::Sra => ((v >> 1) | (v & 0x80), (v & 1) != 0),
        Shift::Sll => ((v << 1) | 1, (v & 0x80) != 0),
        Shift::Srl => (v >> 1, (v & 1) != 0),
    }
}

/// The byte in which only bit `bit` is set.
pub fn mask_of(bit: u8) -> (m: u8)
    requires
        bit < 8,
    ensures
        m == mask(bit),
{
    if bit == 0 {
        0x01
    } else if bit == 1 {
        0x02
    } else if bit == 2 {
        0x04
    } else if bit == 3 {
        0x08
    } else if bit == 4 {
        0x10
    } else if bit == 5 {
        0x20
    } else if bit == 6 {
        0x40
    } else {
        0x80
    }
}

impl Register {
    /// An operand of the CB plane: a general register, `(HL)`, `(IX+d)` or `(IY+d)`.
    pub open spec fn is_cb_operand(self) -> bool {
        self.is_plain() || self == Register::HL || self.is_displaced()
    }

    /// The length of an instruction of the CB plane: two bytes, or four
    /// with an index prefix and a displacement.
    pub open spec fn cb_len(self) -> u16 {
        if self.is_displaced() {
            4
        } else {
            2
        }
    }

    /// T-states of a rotate, shift, `SET` or `RES`: 8 on a register, 15 on
    /// `(HL)`, 23 on `(IX+d)` and `(IY+d)`.
    pub open spec fn cb_cycles(self) -> usize {
        if self.is_displaced() {
            23
        } else if self == Register::HL {
            15
        } else {
            8
        }
    }

    /// T-states of `BIT`: 8 on a register, 12 on `(HL)`, 20 on `(IX+d)` and `(IY+d)`.
    pub open spec fn bit_cycles(self) -> usize {
        if self.is_displaced() {
            20
        } else if self == Register::HL {
            12
        } else {
            8
        }
    }

    /// The length of an instruction of the CB plane on this operand.
    pub fn cb_length(self) -> (n: u16)
        ensures
            n == self.cb_len(),
    {
        if self.displaced() {
            4
        } else {
            2
        }
    }

    /// The T-states of a rotate, shift, `SET` or `RES` on this operand.
    pub fn cb_time(self) -> (t: usize)
        ensures
            t == self.cb_cycles(),
    {
        if self.displaced() {
            23
        } else if self == Register::HL {
            15
        } else {
            8
        }
    }
}

impl Machine {
    /// A rotate of the accumulator (`RLCA`, `RRCA`, `RLA`, `RRA`): C takes
    /// the bit that left, H and N are cleared, Y and X come from the new A;
    /// S, Z and P/V stay.
    pub open spec fn rotate_a(self, kind: Shift) -> Machine {
        let r = shifted(kind, self.reg.a, self.flags.cf);
        (Machine {
            reg: Registers { a: r, ..self.reg },
            flags: Flags {
                yf: bit_of(r, 5),
                hf: false,
                xf: bit_of(r, 3),
                nf: false,
                cf: shifted_out(kind, self.reg.a),
                ..self.flags
            },
            ..self
        }).advance(1, 4)
    }

    /// `RLCA`.
    pub open spec fn rlca(self) -> Machine {
        self.rotate_a(Shift::Rlc)
    }

    /// `RRCA`.
    pub open spec fn rrca(self) -> Machine {
        self.rotate_a(Shift::Rrc)
    }

    /// `RLA`.
    pub open spec fn rla(self) -> Machine {
        self.rotate_a(Shift::Rl)
    }

    /// `RRA`.
    pub open spec fn rra(self) -> Machine {
        self.rotate_a(Shift::Rr)
    }

    /// The flags after a rotate or shift of the byte `v`: S, Z, Y, X and
    /// parity come from the result, H and N are cleared, C takes the bit
    /// that left.
    pub open spec fn shift_flags(self, kind: Shift, v: u8) -> Flags {
        let r = shifted(kind, v, self.flags.cf);
        Flags {
            hf: false,
            pf: even_parity(r),
            nf: false,
            cf: shifted_out(kind, v),
            ..self.flags.with_result(r)
        }
    }

    /// A rotate or shift of the CB plane on the operand `reg`.
    pub open spec fn shift(self, kind: Shift, reg: Register) -> Machine {
        let v = self.read_reg(reg);
        (Machine { flags: self.shift_flags(kind, v), ..self }).write_reg(
            reg,
            shifted(kind, v, self.flags.cf),
        ).advance(reg.cb_len(), reg.cb_cycles())
    }

    /// `RLC r`.
    pub open spec fn rlc(self, reg: Register) -> Machine {
        self.shift(Shift::Rlc, reg)
    }

    /// `RRC r`.
    pub open spec fn rrc(self, reg: Register) -> Machine {
        self.shift(Shift::Rrc, reg)
    }

    /// `BIT b,r`: tests bit `bit` of the operand. With `r` the operand
    /// masked to that bit, S, Z, Y and X come from `r`, P/V equals Z, H is
    /// set, N is cleared; C stays.
    pub open spec fn bit(self, bit: u8, reg: Register) -> Machine {
        let r = self.read_reg(reg) & mask(bit);
        (Machine {
            flags: Flags { hf: true, pf: r == 0, nf: false, ..self.flags.with_result(r) },
            ..self
        }).advance(reg.cb_len(), reg.bit_cycles())
    }

    /// `SET b,r`: sets bit `bit` of the operand.
    pub open spec fn set(self, bit: u8, reg: Register) -> Machine {
        self.write_reg(reg, self.read_reg(reg) | mask(bit)).advance(reg.cb_len(), reg.cb_cycles())
    }

    /// `RES b,r`: clears bit `bit` of the operand.
    pub open spec fn res(self, bit: u8, reg: Register) -> Machine {
        self.write_reg(reg, self.read_reg(reg) & !mask(bit)).advance(
            reg.cb_len(),
            reg.cb_cycles(),
        )
    }
}

impl Cpu {
    /// Rotates the accumulator.
    pub fn rotate_a(&mut self, kind: Shift)
        ensures
            final(self)@ =~= old(self)@.rotate_a(kind),
    {
        let (r, carry) = shift8(kind, self.reg.a, self.flags.cf);
        self.reg.a = r;
        self.flags = Flags {
            yf: (r & 0x20) != 0,
            hf: false,
            xf: (r & 0x08) != 0,
            nf: false,
            cf: carry,
            ..self.flags
        };
        self.advance(1, 4);
    }

    /// `RLCA`.
    pub fn rlca(&mut self)
        ensures
            final(self)@ =~= old(self)@.rlca(),
    {
        self.rotate_a(Shift::Rlc);
    }

    /// `RRCA`.
    pub fn rrca(&mut self)
        ensures
            final(self)@ =~= old(self)@.rrca(),
    {
        self.rotate_a(Shift::Rrc);
    }

    /// `RLA`.
    pub fn rla(&mut self)
        ensures
            final(self)@ =~= old(self)@.rla(),
    {
        self.rotate_a(Shift::Rl);
    }

    /// `RRA`.
    pub fn rra(&mut self)
        ensures
            final(self)@ =~= old(self)@.rra(),
    {
        self.rotate_a(Shift::Rr);
    }

    /// Sets the flags for a rotate or shift of `v` and returns the result.
    pub fn shift_flags(&mut self, kind: Shift, v: u8) -> (r: u8)
        ensures
            r == shifted(kind, v, old(self).flags.cf),
            final(self)@ =~= (Machine { flags: old(self)@.shift_flags(kind, v), ..old(self)@ }),
    {
        let (r, carry) = shift8(kind, v, self.flags.cf);
        let p = self.parity(r);
        self.flags.set_result(r);
        self.flags = Flags { hf: false, pf: p, nf: false, cf: carry, ..self.flags };
        r
    }

    /// A rotate or shift of the CB plane.
    pub fn shift(&mut self, kind: Shift, reg: Register)
        requires
            reg.is_cb_operand(),
        ensures
            final(self)@ =~= old(self)@.shift(kind, reg),
    {
        let v = self.read_reg(reg);
        let r = self.shift_flags(kind, v);
        self.write_reg(reg, r);
        self.advance(reg.cb_length(), reg.cb_time());
    }

    /// `RLC r`.
    pub fn rlc(&mut self, reg: Register)
        requires
            reg.is_cb_operand(),
        ensures
            final(self)@ =~= old(self)@.rlc(reg),
    {
        self.shift(Shift::Rlc, reg);
    }

    /// `RLC (IX+d)` and `RLC (IY+d)` in the forms whose opcode names a
    /// register too: the operand is the byte in memory, and the register
    /// `dst` takes no part.
    pub fn rlc_ex(&mut self, src: Register, dst: Register)
        requires
            src.is_displaced(),
            dst.is_plain(),
        ensures
            final(self)@ =~= old(self)@.rlc(src),
    {
        self.shift(Shift::Rlc, src);
    }

    /// `RRC r`.
    pub fn rrc(&mut self, reg: Register)
        requires
            reg.is_cb_operand(),
        ensures
            final(self)@ =~= old(self)@.rrc(reg),
    {
        self.shift(Shift::Rrc, reg);
    }

    /// `BIT b,r`.
    pub fn bit(&mut self, bit: u8, reg: Register)
        requires
            bit < 8,
            reg.is_cb_operand(),
        ensures
            final(self)@ =~= old(self)@.bit(bit, reg),
    {
        let r = self.read_reg(reg) & mask_of(bit);
        let mut g = self.flags;
        g.set_result(r);
        self.flags = Flags { hf: true, pf: r == 0, nf: false, ..g };
        let t: usize = if reg.displaced() { 20 } else if reg == Register::HL { 12 } else { 8 };
        self.advance(reg.cb_length(), t);
    }

    /// `SET b,r`.
    pub fn set(&mut self, bit: u8, reg: Register)
        requires
            bit < 8,
            reg.is_cb_operand(),
        ensures
            final(self)@ =~= old(self)@.set(bit, reg),
    {
        let v = self.read_reg(reg) | mask_of(bit);
        self.write_reg(reg, v);
        self.advance(reg.cb_length(), reg.cb_time());
    }

    /// `RES b,r`.
    pub fn res(&mut self, bit: u8, reg: Register)
        requires
            bit < 8,
            reg.is_cb_operand(),
        ensures
            final(self)@ =~= old(self)@.res(bit, reg),
    {
        let v = self.read_reg(reg) & !mask_of(bit);
        self.write_reg(reg, v);
        self.advance(reg.cb_length(), reg.cb_time());
    }
}

} // verus!
