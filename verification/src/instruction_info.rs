//! The names of operands and what kind of operand each is.

use vstd::prelude::*;

verus! {

/// A named operand of an instruction.
///
/// The same name can stand for a register pair or for the byte in memory that
/// the pair points at; which one is meant follows from the instruction.
#[derive(Clone, Copy, Debug, PartialEq, Eq, Structural)]
pub enum Register {
    A,
    B,
    C,
    D,
    E,
    H,
    L,
    M,
    I,
    R,
    IXH,
    IXL,
    IYH,
    IYL,
    AF,
    BC,
    DE,
    HL,
    IX,
    IY,
    SP,
    IxIm,
    IyIm,
}

impl Register {
    /// The operand is one byte: a register, a half of an index register, or
    /// the byte in memory at `(HL)`, `(IX+d)` or `(IY+d)`.
    pub open spec fn is_byte(self) -> bool {
        self != Register::AF && self != Register::BC && self != Register::DE
            && self != Register::IX && self != Register::IY && self != Register::SP
    }

    /// The operand is a 16-bit register pair.
    pub open spec fn is_pair(self) -> bool {
        self == Register::AF || self == Register::BC || self == Register::DE
            || self == Register::HL || self == Register::IX || self == Register::IY
            || self == Register::SP
    }

    /// One of the seven general registers A, B, C, D, E, H, L.
    pub open spec fn is_plain(self) -> bool {
        self == Register::A || self == Register::B || self == Register::C || self == Register::D
            || self == Register::E || self == Register::H || self == Register::L
    }

    /// The high or the low half of IX or IY.
    pub open spec fn is_index_half(self) -> bool {
        self == Register::IXH || self == Register::IXL || self == Register::IYH || self
            == Register::IYL
    }

    /// The byte in memory at `(IX+d)` or `(IY+d)`.
    pub open spec fn is_displaced(self) -> bool {
        self == Register::IxIm || self == Register::IyIm
    }

    /// An operand that the 8-bit arithmetic, logic, increment and load
    /// instructions take: a general register, the byte at `(HL)`, a half of an
    /// index register, or the byte at `(IX+d)` or `(IY+d)`.
    pub open spec fn is_operand(self) -> bool {
        self.is_plain() || self == Register::HL || self.is_index_half() || self.is_displaced()
    }

    /// The operand belongs to the IX or IY forms of an instruction, which a
    /// prefix byte selects.
    pub open spec fn is_indexed(self) -> bool {
        self.is_index_half() || self.is_displaced() || self == Register::IX || self
            == Register::IY
    }

    /// The number of bytes of an instruction that has one opcode byte and
    /// this operand: a prefix byte more for an index half, a prefix and a
    /// displacement byte more for `(IX+d)` and `(IY+d)`.
    pub open spec fn operand_len(self) -> u16 {
        if self.is_displaced() {
            3
        } else if self.is_indexed() {
            2
        } else {
            1
        }
    }

    /// T-states of an 8-bit arithmetic or logic instruction on this operand:
    /// 4 for a register, 7 for `(HL)`, 8 for an index half, 19 for `(IX+d)`
    /// and `(IY+d)`.
    pub open spec fn alu_cycles(self) -> usize {
        if self.is_displaced() {
            19
        } else if self.is_index_half() {
            8
        } else if self == Register::HL {
            7
        } else {
            4
        }
    }

    /// T-states of an 8-bit increment or decrement of this operand: 4 for a
    /// register, 11 for `(HL)`, 8 for an index half, 23 for `(IX+d)` and
    /// `(IY+d)`.
    pub open spec fn inc_cycles(self) -> usize {
        if self.is_displaced() {
            23
        } else if self.is_index_half() {
            8
        } else if self == Register::HL {
            11
        } else {
            4
        }
    }

    /// Whether this is one of A, B, C, D, E, H, L.
    pub fn plain(self) -> (r: bool)
        ensures
            r == self.is_plain(),
    {
        self == Register::A || self == Register::B || self == Register::C || self == Register::D
            || self == Register::E || self == Register::H || self == Register::L
    }

    /// Whether this is a half of IX or IY.
    pub fn index_half(self) -> (r: bool)
        ensures
            r == self.is_index_half(),
    {
        self == Register::IXH || self == Register::IXL || self == Register::IYH || self
            == Register::IYL
    }

    /// Whether this is `(IX+d)` or `(IY+d)`.
    pub fn displaced(self) -> (r: bool)
        ensures
            r == self.is_displaced(),
    {
        self == Register::IxIm || self == Register::IyIm
    }

    /// Whether this operand belongs to an IX or IY form.
    pub fn indexed(self) -> (r: bool)
        ensures
            r == self.is_indexed(),
    {
        self.index_half() || self.displaced() || self == Register::IX || self == Register::IY
    }

    /// The T-states of an arithmetic or logic instruction on this operand.
    pub fn alu_time(self) -> (t: usize)
        ensures
            t == self.alu_cycles(),
    {
        if self.displaced() {
            19
        } else if self.index_half() {
            8
        } else if self == Register::HL {
            7
        } else {
            4
        }
    }

    /// The T-states of an increment or decrement of this operand.
    pub fn inc_time(self) -> (t: usize)
        ensures
            t == self.inc_cycles(),
    {
        if self.displaced() {
            23
        } else if self.index_half() {
            8
        } else if self == Register::HL {
            11
        } else {
            4
        }
    }

    /// The length of an instruction with one opcode byte and this operand.
    pub fn length(self) -> (n: u16)
        ensures
            n == self.operand_len(),
    {
        if self.displaced() {
            3
        } else if self.indexed() {
            2
        } else {
            1
        }
    }
}

} // verus!
