//! The processor state, the packing of the flag register, the bus, and
//! access to operands by name.

use vstd::prelude::*;
use crate::bits::{bit_of, high_byte, low_byte, make_word, offset};
use crate::instruction_info::Register;
use crate::memory::{Memory, MemoryRW};

verus! {

/// The register file: the main bank, the shadow bank, and the special registers.
#[derive(Clone, Copy, Debug)]
pub struct Registers {
    pub a: u8,
    pub b: u8,
    pub c: u8,
    pub d: u8,
    pub e: u8,
    pub h: u8,
    pub l: u8,
    pub a_: u8,
    pub b_: u8,
    pub c_: u8,
    pub d_: u8,
    pub e_: u8,
    pub h_: u8,
    pub l_: u8,
    pub m: u8,
    /// Interrupt vector page.
    pub i: u8,
    /// Memory refresh counter.
    pub r: u8,
    pub pc: u16,
    pub prev_pc: u16,
    pub sp: u16,
    pub ix: u16,
    pub iy: u16,
}

/// The I/O latch: the last port addressed, the byte on it, and the direction.
#[derive(Clone, Copy, Debug)]
pub struct Io {
    pub port: u8,
    pub value: u8,
    pub input: bool,
    pub output: bool,
}

/// The flag register F and its shadow F', one boolean per bit.
#[derive(Clone, Copy, Debug)]
pub struct Flags {
    /// Sign.
    pub sf: bool,
    /// Zero.
    pub zf: bool,
    /// Copy of bit 5 of the result.
    pub yf: bool,
    /// Half carry.
    pub hf: bool,
    /// Copy of bit 3 of the result.
    pub xf: bool,
    /// Parity or overflow.
    pub pf: bool,
    /// Set if the last operation was a subtraction.
    pub nf: bool,
    /// Carry.
    pub cf: bool,
    pub sf_: bool,
    pub zf_: bool,
    pub yf_: bool,
    pub hf_: bool,
    pub xf_: bool,
    pub pf_: bool,
    pub nf_: bool,
    pub cf_: bool,
}

/// The interrupt state: enable flip-flops, mode, and the latches.
#[derive(Clone, Copy, Debug)]
pub struct Interrupt {
    pub halt: bool,
    pub irq: bool,
    pub vector: u8,
    pub nmi_pending: bool,
    pub nmi: bool,
    pub int: bool,
    pub iff1: bool,
    pub iff2: bool,
    pub mode: u8,
}

/// The processor together with the memory it owns.
pub struct Cpu {
    pub opcode: u16,
    pub next_opcode: u16,
    pub breakpoint: bool,
    pub debug: bool,
    pub reg: Registers,
    pub flags: Flags,
    /// Elapsed T-states.
    pub cycles: usize,
    pub io: Io,
    pub int: Interrupt,
    pub int_pending: bool,
    /// Flat memory, as the CP/M exercisers need it.
    pub cpm_compat: bool,
    pub memory: Memory,
}

/// The byte that packs eight flags, S in bit 7 down to C in bit 0.
pub open spec fn pack(s: bool, z: bool, y: bool, h: bool, x: bool, p: bool, n: bool, c: bool) -> u8 {
    (if s { 0x80u8 } else { 0 }) | (if z { 0x40u8 } else { 0 }) | (if y { 0x20u8 } else { 0 }) | (if h {
        0x10u8
    } else {
        0
    }) | (if x { 0x08u8 } else { 0 }) | (if p { 0x04u8 } else { 0 }) | (if n { 0x02u8 } else { 0 }) | (if c {
        0x01u8
    } else {
        0
    })
}

impl Flags {
    /// The main flags as the byte F.
    pub open spec fn byte(self) -> u8 {
        pack(self.sf, self.zf, self.yf, self.hf, self.xf, self.pf, self.nf, self.cf)
    }

    /// The shadow flags as the byte F'.
    pub open spec fn shadow_byte(self) -> u8 {
        pack(self.sf_, self.zf_, self.yf_, self.hf_, self.xf_, self.pf_, self.nf_, self.cf_)
    }

    /// These flags with the main set replaced by the bits of `v`.
    pub open spec fn with_byte(self, v: u8) -> Flags {
        Flags {
            sf: bit_of(v, 7),
            zf: bit_of(v, 6),
            yf: bit_of(v, 5),
            hf: bit_of(v, 4),
            xf: bit_of(v, 3),
            pf: bit_of(v, 2),
            nf: bit_of(v, 1),
            cf: bit_of(v, 0),
            ..self
        }
    }

    /// These flags with the shadow set replaced by the bits of `v`.
    pub open spec fn with_shadow_byte(self, v: u8) -> Flags {
        Flags {
            sf_: bit_of(v, 7),
            zf_: bit_of(v, 6),
            yf_: bit_of(v, 5),
            hf_: bit_of(v, 4),
            xf_: bit_of(v, 3),
            pf_: bit_of(v, 2),
            nf_: bit_of(v, 1),
            cf_: bit_of(v, 0),
            ..self
        }
    }

    /// These flags with the main and the shadow set exchanged.
    pub open spec fn swapped(self) -> Flags {
        self.with_byte(self.shadow_byte()).with_shadow_byte(self.byte())
    }

    /// Unpacking a byte and packing it again gives the byte back; the other set stays.
    pub proof fn lemma_with_byte(self, v: u8)
        ensures
            self.with_byte(v).byte() == v,
            self.with_byte(v).shadow_byte() == self.shadow_byte(),
            self.with_shadow_byte(v).shadow_byte() == v,
            self.with_shadow_byte(v).byte() == self.byte(),
    {
        lemma_pack_bits(v);
    }

    /// Unpacking is the inverse of packing: the flags packed into a byte
    /// and unpacked again are the flags.
    pub proof fn law_unpack_inverts_pack(self)
        ensures
            self.with_byte(self.byte()) == self,
            self.with_shadow_byte(self.shadow_byte()) == self,
    {
        let b = self.byte();
        let t = self.shadow_byte();
        let f = self.with_byte(b);
        let g = self.with_shadow_byte(t);
        assert(f.sf == self.sf && f.zf == self.zf && f.yf == self.yf && f.hf == self.hf && f.xf
            == self.xf && f.pf == self.pf && f.nf == self.nf && f.cf == self.cf) by {
            lemma_bits_pack(self.sf, self.zf, self.yf, self.hf, self.xf, self.pf, self.nf, self.cf);
        }
        assert(g.sf_ == self.sf_ && g.zf_ == self.zf_ && g.yf_ == self.yf_ && g.hf_ == self.hf_
            && g.xf_ == self.xf_ && g.pf_ == self.pf_ && g.nf_ == self.nf_ && g.cf_ == self.cf_) by {
            lemma_bits_pack(
                self.sf_,
                self.zf_,
                self.yf_,
                self.hf_,
                self.xf_,
                self.pf_,
                self.nf_,
                self.cf_,
            );
        }
    }

    /// The flags with every bit of F and F' cleared.
    pub open spec fn cleared() -> Flags {
        Flags {
            sf: false,
            zf: false,
            yf: false,
            hf: false,
            xf: false,
            pf: false,
            nf: false,
            cf: false,
            sf_: false,
            zf_: false,
            yf_: false,
            hf_: false,
            xf_: false,
            pf_: false,
            nf_: false,
            cf_: false,
        }
    }

    /// The flags with every bit of F and F' cleared.
    pub fn new() -> (f: Flags)
        ensures
            f == Flags::cleared(),
    {
        Flags {
            sf: false,
            zf: false,
            yf: false,
            hf: false,
            xf: false,
            pf: false,
            nf: false,
            cf: false,
            sf_: false,
            zf_: false,
            yf_: false,
            hf_: false,
            xf_: false,
            pf_: false,
            nf_: false,
            cf_: false,
        }
    }

    /// Packs the main flags into the byte F.
    pub fn get(&self) -> (v: u8)
        ensures
            v == self.byte(),
    {
        let s: u8 = if self.sf { 0x80 } else { 0 };
        let z: u8 = if self.zf { 0x40 } else { 0 };
        let y: u8 = if self.yf { 0x20 } else { 0 };
        let h: u8 = if self.hf { 0x10 } else { 0 };
        let x: u8 = if self.xf { 0x08 } else { 0 };
        let p: u8 = if self.pf { 0x04 } else { 0 };
        let n: u8 = if self.nf { 0x02 } else { 0 };
        let c: u8 = if self.cf { 0x01 } else { 0 };
        s | z | y | h | x | p | n | c
    }

    /// Unpacks `value` into the main flags.
    pub fn set(&mut self, value: u8)
        ensures
            *final(self) == old(self).with_byte(value),
    {
        self.sf = (value & 0x80) != 0;
        self.zf = (value & 0x40) != 0;
        self.yf = (value & 0x20) != 0;
        self.hf = (value & 0x10) != 0;
        self.xf = (value & 0x08) != 0;
        self.pf = (value & 0x04) != 0;
        self.nf = (value & 0x02) != 0;
        self.cf = (value & 0x01) != 0;
    }

    /// Packs the shadow flags into the byte F'.
    pub fn get_shadow(&self) -> (v: u8)
        ensures
            v == self.shadow_byte(),
    {
        let s: u8 = if self.sf_ { 0x80 } else { 0 };
        let z: u8 = if self.zf_ { 0x40 } else { 0 };
        let y: u8 = if self.yf_ { 0x20 } else { 0 };
        let h: u8 = if self.hf_ { 0x10 } else { 0 };
        let x: u8 = if self.xf_ { 0x08 } else { 0 };
        let p: u8 = if self.pf_ { 0x04 } else { 0 };
        let n: u8 = if self.nf_ { 0x02 } else { 0 };
        let c: u8 = if self.cf_ { 0x01 } else { 0 };
        s | z | y | h | x | p | n | c
    }

    /// Unpacks `value` into the shadow flags.
    pub fn set_shadow(&mut self, value: u8)
        ensures
            *final(self) == old(self).with_shadow_byte(value),
    {
        self.sf_ = (value & 0x80) != 0;
        self.zf_ = (value & 0x40) != 0;
        self.yf_ = (value & 0x20) != 0;
        self.hf_ = (value & 0x10) != 0;
        self.xf_ = (value & 0x08) != 0;
        self.pf_ = (value & 0x04) != 0;
        self.nf_ = (value & 0x02) != 0;
        self.cf_ = (value & 0x01) != 0;
    }

    /// Exchanges the main flags with the shadow flags.
    pub fn swap(&mut self)
        ensures
            *final(self) == old(self).swapped(),
    {
        let f = self.get();
        let shadow = self.get_shadow();
        self.set(shadow);
        self.set_shadow(f);
    }
}

impl MemoryRW for Cpu {
    fn read8(&self, addr: u16) -> (b: u8)
        ensures
            b == self@.read8(addr),
    {
        if self.cpm_compat {
            self.memory.peek(addr as usize)
        } else if addr < 0x4000 {
            self.memory.peek(addr as usize)
        } else if addr == 0x5000 {
            if self.int.int {
                1
            } else {
                0
            }
        } else if addr < 0x5000 {
            self.memory.peek_ram(addr as usize - 0x4000)
        } else {
            self.memory.peek(addr as usize)
        }
    }

    fn read16(&self, addr: u16) -> (w: u16)
        ensures
            w == self@.read16(addr),
    {
        let lo = self.read8(addr);
        let hi = self.read8(addr.wrapping_add(1));
        make_word(hi, lo)
    }

    fn write16(&mut self, addr: u16, word: u16)
        ensures
            final(self)@ =~= old(self)@.write16(addr, word),
    {
        self.write8(addr, low_byte(word));
        self.write8(addr.wrapping_add(1), high_byte(word));
    }

    fn write8(&mut self, addr: u16, byte: u8)
        ensures
            final(self)@ == old(self)@.write8(addr, byte),
    {
        if self.cpm_compat {
            self.memory.poke(addr as usize, byte);
            assert(self@ == old(self)@.write8(addr, byte));
        } else if addr < 0x4000 {
            self.memory.poke_ram(addr as usize, byte);
            assert(self@ == old(self)@.write8(addr, byte));
        } else if addr < 0x5000 {
            self.memory.poke_ram(addr as usize - 0x4000, byte);
            assert(self@ == old(self)@.write8(addr, byte));
        } else if addr == 0x5000 {
            self.int_pending = true;
            assert(self@ == old(self)@.write8(addr, byte));
        } else {
            self.memory.poke_ram(addr as usize, byte);
            assert(self@ == old(self)@.write8(addr, byte));
        }
    }
}

impl Cpu {
    /// The model of a processor always has both memory regions at their
    /// full size.
    pub fn model_wf(&self)
        ensures
            self@.wf(),
    {
        self.memory.sizes();
    }

    /// The value of the byte operand `reg`.
    pub fn read_reg(&self, reg: Register) -> (v: u8)
        requires
            reg.is_byte(),
        ensures
            v == self@.read_reg(reg),
    {
        match reg {
            Register::A => self.reg.a,
            Register::B => self.reg.b,
            Register::C => self.reg.c,
            Register::D => self.reg.d,
            Register::E => self.reg.e,
            Register::H => self.reg.h,
            Register::L => self.reg.l,
            Register::M => self.reg.m,
            Register::I => self.reg.i,
            Register::R => self.reg.r,
            Register::IXH => high_byte(self.reg.ix),
            Register::IXL => low_byte(self.reg.ix),
            Register::IYH => high_byte(self.reg.iy),
            Register::IYL => low_byte(self.reg.iy),
            Register::IxIm => {
                let d = self.read8(self.reg.pc.wrapping_add(2));
                self.read8(offset(self.reg.ix, d))
            },
            Register::IyIm => {
                let d = self.read8(self.reg.pc.wrapping_add(2));
                self.read8(offset(self.reg.iy, d))
            },
            _ => self.read8(self.read_pair(Register::HL)),
        }
    }

    /// Stores `value` in the byte operand `reg`.
    pub fn write_reg(&mut self, reg: Register, value: u8)
        requires
            reg.is_byte(),
        ensures
            final(self)@ =~= old(self)@.write_reg(reg, value),
    {
        match reg {
            Register::A => self.reg.a = value,
            Register::B => self.reg.b = value,
            Register::C => self.reg.c = value,
            Register::D => self.reg.d = value,
            Register::E => self.reg.e = value,
            Register::H => self.reg.h = value,
            Register::L => self.reg.l = value,
            Register::M => self.reg.m = value,
            Register::I => self.reg.i = value,
            Register::R => self.reg.r = value,
            Register::IXH => self.reg.ix = make_word(value, low_byte(self.reg.ix)),
            Register::IXL => self.reg.ix = make_word(high_byte(self.reg.ix), value),
            Register::IYH => self.reg.iy = make_word(value, low_byte(self.reg.iy)),
            Register::IYL => self.reg.iy = make_word(high_byte(self.reg.iy), value),
            Register::IxIm => {
                let d = self.read8(self.reg.pc.wrapping_add(2));
                self.write8(offset(self.reg.ix, d), value)
            },
            Register::IyIm => {
                let d = self.read8(self.reg.pc.wrapping_add(2));
                self.write8(offset(self.reg.iy, d), value)
            },
            _ => {
                let hl = self.read_pair(Register::HL);
                self.write8(hl, value)
            },
        }
    }

    /// Loads the register pair `reg` with `value`.
    pub fn write_pair(&mut self, reg: Register, value: u16)
        requires
            reg.is_pair(),
        ensures
            final(self)@ =~= old(self)@.write_pair(reg, value),
    {
        match reg {
            Register::AF => {
                self.flags.set(low_byte(value));
                self.reg.a = high_byte(value);
            },
            Register::DE => {
                self.reg.d = high_byte(value);
                self.reg.e = low_byte(value);
            },
            Register::BC => {
                self.reg.b = high_byte(value);
                self.reg.c = low_byte(value);
            },
            Register::HL => {
                self.reg.h = high_byte(value);
                self.reg.l = low_byte(value);
            },
            Register::IX => self.reg.ix = value,
            Register::IY => self.reg.iy = value,
            _ => self.reg.sp = value,
        }
    }

    /// The value of the register pair `reg`.
    pub fn read_pair(&self, reg: Register) -> (v: u16)
        requires
            reg.is_pair(),
        ensures
            v == self@.read_pair(reg),
    {
        match reg {
            Register::BC => make_word(self.reg.b, self.reg.c),
            Register::DE => make_word(self.reg.d, self.reg.e),
            Register::HL => make_word(self.reg.h, self.reg.l),
            Register::IX => self.reg.ix,
            Register::IY => self.reg.iy,
            Register::AF => make_word(self.reg.a, self.flags.get()),
            _ => self.reg.sp,
        }
    }

    /// Moves the program counter forward by `t`.
    pub fn adv_pc(&mut self, t: u16)
        ensures
            final(self)@ =~= old(self)@.adv_pc(t),
    {
        self.reg.prev_pc = self.reg.pc;
        self.reg.pc = self.reg.pc.wrapping_add(t);
    }

    /// Adds `t` T-states to the cycle counter.
    pub fn adv_cycles(&mut self, t: usize)
        ensures
            final(self)@ =~= old(self)@.adv_cycles(t),
    {
        self.cycles = self.cycles.wrapping_add(t);
    }

    /// Moves the program counter forward by `len` and adds `t` T-states.
    pub fn advance(&mut self, len: u16, t: usize)
        ensures
            final(self)@ =~= old(self)@.advance(len, t),
    {
        self.adv_pc(len);
        self.adv_cycles(t);
    }
}

/// A byte is the pack of its bits.
pub proof fn lemma_pack_bits(v: u8)
    ensures
        pack(
            bit_of(v, 7),
            bit_of(v, 6),
            bit_of(v, 5),
            bit_of(v, 4),
            bit_of(v, 3),
            bit_of(v, 2),
            bit_of(v, 1),
            bit_of(v, 0),
        ) == v,
{
    let s_bit: u8 = if v & 0x80 != 0 { 0x80 } else { 0 };
    let z_bit: u8 = if v & 0x40 != 0 { 0x40 } else { 0 };
    let y_bit: u8 = if v & 0x20 != 0 { 0x20 } else { 0 };
    let h_bit: u8 = if v & 0x10 != 0 { 0x10 } else { 0 };
    let x_bit: u8 = if v & 0x08 != 0 { 0x08 } else { 0 };
    let p_bit: u8 = if v & 0x04 != 0 { 0x04 } else { 0 };
    let n_bit: u8 = if v & 0x02 != 0 { 0x02 } else { 0 };
    let c_bit: u8 = if v & 0x01 != 0 { 0x01 } else { 0 };
    assert(s_bit | z_bit | y_bit | h_bit | x_bit | p_bit | n_bit | c_bit == v) by (bit_vector)
        requires
            s_bit == (if v & 0x80 != 0 { 0x80u8 } else { 0 }),
            z_bit == (if v & 0x40 != 0 { 0x40u8 } else { 0 }),
            y_bit == (if v & 0x20 != 0 { 0x20u8 } else { 0 }),
            h_bit == (if v & 0x10 != 0 { 0x10u8 } else { 0 }),
            x_bit == (if v & 0x08 != 0 { 0x08u8 } else { 0 }),
            p_bit == (if v & 0x04 != 0 { 0x04u8 } else { 0 }),
            n_bit == (if v & 0x02 != 0 { 0x02u8 } else { 0 }),
            c_bit == (if v & 0x01 != 0 { 0x01u8 } else { 0 }),
    ;
}

/// Each flag of a packed byte is found again at its bit.
pub proof fn lemma_bits_pack(s: bool, z: bool, y: bool, h: bool, x: bool, p: bool, n: bool, c: bool)
    ensures
        bit_of(pack(s, z, y, h, x, p, n, c), 7) == s,
        bit_of(pack(s, z, y, h, x, p, n, c), 6) == z,
        bit_of(pack(s, z, y, h, x, p, n, c), 5) == y,
        bit_of(pack(s, z, y, h, x, p, n, c), 4) == h,
        bit_of(pack(s, z, y, h, x, p, n, c), 3) == x,
        bit_of(pack(s, z, y, h, x, p, n, c), 2) == p,
        bit_of(pack(s, z, y, h, x, p, n, c), 1) == n,
        bit_of(pack(s, z, y, h, x, p, n, c), 0) == c,
{
    let s_bit: u8 = if s { 0x80 } else { 0 };
    let z_bit: u8 = if z { 0x40 } else { 0 };
    let y_bit: u8 = if y { 0x20 } else { 0 };
    let h_bit: u8 = if h { 0x10 } else { 0 };
    let x_bit: u8 = if x { 0x08 } else { 0 };
    let p_bit: u8 = if p { 0x04 } else { 0 };
    let n_bit: u8 = if n { 0x02 } else { 0 };
    let c_bit: u8 = if c { 0x01 } else { 0 };
    let v: u8 = s_bit | z_bit | y_bit | h_bit | x_bit | p_bit | n_bit | c_bit;
    assert((v & 0x80 != 0) == (s_bit != 0) && (v & 0x40 != 0) == (z_bit != 0) && (v & 0x20 != 0)
        == (y_bit != 0) && (v & 0x10 != 0) == (h_bit != 0) && (v & 0x08 != 0) == (x_bit != 0)
        && (v & 0x04 != 0) == (p_bit != 0) && (v & 0x02 != 0) == (n_bit != 0) && (v & 0x01 != 0)
        == (c_bit != 0)) by (bit_vector)
        requires
            s_bit == 0 || s_bit == 0x80,
            z_bit == 0 || z_bit == 0x40,
            y_bit == 0 || y_bit == 0x20,
            h_bit == 0 || h_bit == 0x10,
            x_bit == 0 || x_bit == 0x08,
            p_bit == 0 || p_bit == 0x04,
            n_bit == 0 || n_bit == 0x02,
            c_bit == 0 || c_bit == 0x01,
            v == s_bit | z_bit | y_bit | h_bit | x_bit | p_bit | n_bit | c_bit,
    ;
}

} // verus!
