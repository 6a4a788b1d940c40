//! Laws of the instruction set, proved of the model.

use vstd::prelude::*;
use crate::alu::{carry_in, even_parity};
use crate::bits::{bit_of, high, lemma_wrap16, low, popcount, word, wrap8};
use crate::cpu::{lemma_bits_pack, Flags};
use crate::instruction_info::Register;
use crate::machine::Machine;

verus! {

/// `ADC` leaves in A the sum of A, the operand and the carry, modulo 256;
/// the carry flag is the quotient of that sum by 256, and the zero flag
/// tells that the new A is zero.
pub proof fn law_adc(m: Machine, reg: Register)
    requires
        reg.is_operand(),
    ensures
        ({
            let sum = m.reg.a + m.read_reg(reg) + carry_in(m.flags.cf);
            let n = m.adc(reg);
            &&& n.reg.a == sum % 256
            &&& n.flags.cf == (sum / 256 == 1)
            &&& n.flags.zf == (n.reg.a == 0)
        }),
{
}

/// `SBC` leaves in A the difference of A, the operand and the borrow,
/// modulo 256; the carry flag tells that the difference was negative, and
/// the zero flag that the new A is zero.
pub proof fn law_sbc(m: Machine, reg: Register)
    requires
        reg.is_operand(),
    ensures
        ({
            let diff = m.reg.a - m.read_reg(reg) - carry_in(m.flags.cf);
            let n = m.sbc(reg);
            &&& n.reg.a == diff % 256
            &&& n.flags.cf == (diff < 0)
            &&& n.flags.zf == (n.reg.a == 0)
        }),
{
}

/// A word is put together again from its two bytes.
pub proof fn lemma_word_of_bytes(w: u16)
    ensures
        word(high(w), low(w)) == w,
{
}

/// A pair holds what was written to it; for AF, with the flags unpacked.
pub proof fn lemma_pair_written(m: Machine, rp: Register, w: u16)
    requires
        rp.is_pair(),
    ensures
        m.write_pair(rp, w).read_pair(rp) == w,
{
    lemma_word_of_bytes(w);
    if rp == Register::AF {
        m.flags.lemma_with_byte(low(w));
    }
}

/// `INC rp` followed by `DEC rp` restores the pair and changes no flag.
pub proof fn law_inc_dec_rp(m: Machine, rp: Register)
    requires
        rp.is_counter(),
    ensures
        m.inc_rp(rp).dec_rp(rp).read_pair(rp) == m.read_pair(rp),
        m.inc_rp(rp).dec_rp(rp).flags == m.flags,
{
    let v = m.read_pair(rp);
    let n = m.inc_rp(rp);
    lemma_pair_written(m, rp, v.wrapping_add(1));
    assert(n.read_pair(rp) == v.wrapping_add(1));
    lemma_wrap16(0, v, 1);
    assert(v.wrapping_add(1).wrapping_sub(1) == v);
    lemma_pair_written(n, rp, v);
}

/// The flags with the two sets exchanged have each shadow flag in the
/// place of the main flag and each main flag in the place of the shadow.
pub proof fn lemma_swapped(f: Flags)
    ensures
        ({
            let g = f.swapped();
            &&& g.sf == f.sf_ && g.zf == f.zf_ && g.yf == f.yf_ && g.hf == f.hf_
            &&& g.xf == f.xf_ && g.pf == f.pf_ && g.nf == f.nf_ && g.cf == f.cf_
            &&& g.sf_ == f.sf && g.zf_ == f.zf && g.yf_ == f.yf && g.hf_ == f.hf
            &&& g.xf_ == f.xf && g.pf_ == f.pf && g.nf_ == f.nf && g.cf_ == f.cf
        }),
{
    lemma_bits_pack(f.sf_, f.zf_, f.yf_, f.hf_, f.xf_, f.pf_, f.nf_, f.cf_);
    lemma_bits_pack(f.sf, f.zf, f.yf, f.hf, f.xf, f.pf, f.nf, f.cf);
}

/// Exchanging the two sets of flags twice gives the flags back.
pub proof fn lemma_swapped_twice(f: Flags)
    ensures
        f.swapped().swapped() == f,
{
    let g = f.swapped();
    let h = g.swapped();
    lemma_swapped(f);
    lemma_swapped(g);
    assert(h.sf == f.sf && h.zf == f.zf && h.yf == f.yf && h.hf == f.hf && h.xf == f.xf && h.pf
        == f.pf && h.nf == f.nf && h.cf == f.cf);
    assert(h.sf_ == f.sf_ && h.zf_ == f.zf_ && h.yf_ == f.yf_ && h.hf_ == f.hf_ && h.xf_
        == f.xf_ && h.pf_ == f.pf_ && h.nf_ == f.nf_ && h.cf_ == f.cf_);
}

/// `EX AF,AF'` applied twice is the identity on A, F, A' and F'.
pub proof fn law_ex_af_af_involution(m: Machine)
    ensures
        m.ex_af_af().ex_af_af().reg.a == m.reg.a,
        m.ex_af_af().ex_af_af().reg.a_ == m.reg.a_,
        m.ex_af_af().ex_af_af().flags == m.flags,
{
    lemma_swapped_twice(m.flags);
}

/// `EXX` applied twice is the identity on BC, DE, HL and their shadows.
pub proof fn law_exx_involution(m: Machine)
    ensures
        ({
            let n = m.exx().exx();
            &&& n.reg.b == m.reg.b && n.reg.c == m.reg.c && n.reg.d == m.reg.d
            &&& n.reg.e == m.reg.e && n.reg.h == m.reg.h && n.reg.l == m.reg.l
            &&& n.reg.b_ == m.reg.b_ && n.reg.c_ == m.reg.c_ && n.reg.d_ == m.reg.d_
            &&& n.reg.e_ == m.reg.e_ && n.reg.h_ == m.reg.h_ && n.reg.l_ == m.reg.l_
        }),
{
}

/// After `OR r` with A zero, the P flag tells whether the operand has an
/// even number of set bits.
pub proof fn law_or_parity(m: Machine, reg: Register)
    requires
        reg.is_operand(),
        m.reg.a == 0,
    ensures
        m.ora(reg).flags.pf == (popcount(m.read_reg(reg)) % 2 == 0),
{
    reveal(even_parity);
    let b = m.read_reg(reg);
    assert(0u8 | b == b) by (bit_vector);
}

/// A write to an address that reads back is seen by a read of that
/// address and by no read of another one.
pub proof fn lemma_write_read(m: Machine, a: u16, v: u8, b: u16)
    requires
        m.wf(),
        m.reads_back(a),
    ensures
        m.write8(a, v).wf(),
        m.write8(a, v).read8(a) == v,
        b != a ==> m.write8(a, v).read8(b) == m.read8(b),
        m.write8(a, v).reads_back(b) == m.reads_back(b),
        m.write8(a, v).reg == m.reg,
        m.write8(a, v).flags == m.flags,
{
}

/// `PUSH rp` followed by `POP rp` restores SP and leaves the pair as it
/// was, when the two bytes below the stack pointer read back what is
/// written to them.
pub proof fn law_push_pop(m: Machine, rp: Register)
    requires
        m.wf(),
        rp.is_stack_pair(),
        m.reads_back(m.reg.sp.wrapping_sub(1)),
        m.reads_back(m.reg.sp.wrapping_sub(2)),
    ensures
        m.push(rp).pop(rp).reg.sp == m.reg.sp,
        m.push(rp).pop(rp).read_pair(rp) == m.read_pair(rp),
{
    let v = m.read_pair(rp);
    let sp = m.reg.sp.wrapping_sub(2);
    let up = sp.wrapping_add(1);
    lemma_wrap16(0, m.reg.sp, 2);
    lemma_wrap16(0, m.reg.sp, 1);
    lemma_wrap16(0, sp, 1);
    lemma_wrap16(0, sp, 2);
    assert(up == m.reg.sp.wrapping_sub(1));
    assert(sp.wrapping_add(2) == m.reg.sp);
    let m0 = Machine { reg: crate::cpu::Registers { sp: sp, ..m.reg }, ..m };
    let m1 = m0.write8(sp, low(v));
    lemma_write_read(m0, sp, low(v), up);
    let m2 = m1.write8(up, high(v));
    lemma_write_read(m1, up, high(v), sp);
    assert(m.push16(v) == m2);
    assert(m2.read8(sp) == low(v));
    assert(m2.read8(up) == high(v));
    lemma_word_of_bytes(v);
    assert(m2.top16() == v);
    let p = m.push(rp);
    assert(p.top16() == v);
    assert(p.reg.sp == sp);
    lemma_pair_written(p, rp, v);
    if rp == Register::AF {
        p.flags.lemma_with_byte(low(v));
    }
}

/// Whether bits 5 and 3 of the flag byte `f` are bits 5 and 3 of the byte `r`.
pub open spec fn copies_yx(f: u8, r: u8) -> bool {
    bit_of(f, 5) == bit_of(r, 5) && bit_of(f, 3) == bit_of(r, 3)
}

/// Bits 5 and 3 of the packed flags are the flags Y and X.
pub proof fn lemma_yx_bits(f: Flags)
    ensures
        bit_of(f.byte(), 5) == f.yf,
        bit_of(f.byte(), 3) == f.xf,
{
    lemma_bits_pack(f.sf, f.zf, f.yf, f.hf, f.xf, f.pf, f.nf, f.cf);
}

/// After an 8-bit arithmetic or logic instruction on a byte operand, bits
/// 5 and 3 of F are those of the new A; after `CP`, those of the operand.
pub proof fn law_yx_arithmetic(m: Machine, reg: Register)
    requires
        reg.is_operand(),
    ensures
        copies_yx(m.add(reg).flags.byte(), m.add(reg).reg.a),
        copies_yx(m.adc(reg).flags.byte(), m.adc(reg).reg.a),
        copies_yx(m.sub(reg).flags.byte(), m.sub(reg).reg.a),
        copies_yx(m.sbc(reg).flags.byte(), m.sbc(reg).reg.a),
        copies_yx(m.and(reg).flags.byte(), m.and(reg).reg.a),
        copies_yx(m.xor(reg).flags.byte(), m.xor(reg).reg.a),
        copies_yx(m.ora(reg).flags.byte(), m.ora(reg).reg.a),
        copies_yx(m.cmp(reg).flags.byte(), m.read_reg(reg)),
{
    lemma_yx_bits(m.add(reg).flags);
    lemma_yx_bits(m.adc(reg).flags);
    lemma_yx_bits(m.sub(reg).flags);
    lemma_yx_bits(m.sbc(reg).flags);
    lemma_yx_bits(m.and(reg).flags);
    lemma_yx_bits(m.xor(reg).flags);
    lemma_yx_bits(m.ora(reg).flags);
    lemma_yx_bits(m.cmp(reg).flags);
}

/// The same for the instructions with an immediate operand.
pub proof fn law_yx_immediate(m: Machine)
    ensures
        copies_yx(m.adi().flags.byte(), m.adi().reg.a),
        copies_yx(m.adc_im().flags.byte(), m.adc_im().reg.a),
        copies_yx(m.sui().flags.byte(), m.sui().reg.a),
        copies_yx(m.sbi().flags.byte(), m.sbi().reg.a),
        copies_yx(m.ani().flags.byte(), m.ani().reg.a),
        copies_yx(m.xri().flags.byte(), m.xri().reg.a),
        copies_yx(m.ori().flags.byte(), m.ori().reg.a),
        copies_yx(m.cp_im().flags.byte(), m.imm8()),
{
    lemma_yx_bits(m.adi().flags);
    lemma_yx_bits(m.adc_im().flags);
    lemma_yx_bits(m.sui().flags);
    lemma_yx_bits(m.sbi().flags);
    lemma_yx_bits(m.ani().flags);
    lemma_yx_bits(m.xri().flags);
    lemma_yx_bits(m.ori().flags);
    lemma_yx_bits(m.cp_im().flags);
}

/// After `INC r` and `DEC r`, bits 5 and 3 of F are those of the byte
/// that was stored; after a rotate or shift of the CB plane, those of its
/// result; after `BIT`, those of the operand masked to the tested bit.
pub proof fn law_yx_operand(m: Machine, reg: Register, kind: crate::rotate::Shift, bit: u8)
    requires
        reg.is_operand(),
        bit < 8,
    ensures
        copies_yx(m.inc(reg).flags.byte(), wrap8(m.read_reg(reg) + 1)),
        copies_yx(m.dec(reg).flags.byte(), wrap8(m.read_reg(reg) - 1)),
        copies_yx(
            m.shift(kind, reg).flags.byte(),
            crate::rotate::shifted(kind, m.read_reg(reg), m.flags.cf),
        ),
        copies_yx(m.bit(bit, reg).flags.byte(), m.read_reg(reg) & crate::bits::mask(bit)),
{
    lemma_yx_bits(m.inc(reg).flags);
    lemma_yx_bits(m.dec(reg).flags);
    lemma_yx_bits(m.shift(kind, reg).flags);
    lemma_yx_bits(m.bit(bit, reg).flags);
    let v = m.read_reg(reg);
    assert(m.inc(reg).flags.yf == bit_of(wrap8(v + 1), 5));
    assert(m.dec(reg).flags.yf == bit_of(wrap8(v - 1), 5));
}

/// After the instructions that work on the accumulator alone (the four
/// rotates, `DAA`, `CPL`, `SCF`, `CCF`), bits 5 and 3 of F are those of A.
pub proof fn law_yx_accumulator(m: Machine)
    ensures
        copies_yx(m.rlca().flags.byte(), m.rlca().reg.a),
        copies_yx(m.rrca().flags.byte(), m.rrca().reg.a),
        copies_yx(m.rla().flags.byte(), m.rla().reg.a),
        copies_yx(m.rra().flags.byte(), m.rra().reg.a),
        copies_yx(m.daa().flags.byte(), m.daa().reg.a),
        copies_yx(m.cpl().flags.byte(), m.cpl().reg.a),
        copies_yx(m.scf().flags.byte(), m.scf().reg.a),
        copies_yx(m.ccf().flags.byte(), m.ccf().reg.a),
{
    lemma_yx_bits(m.rlca().flags);
    lemma_yx_bits(m.rrca().flags);
    lemma_yx_bits(m.rla().flags);
    lemma_yx_bits(m.rra().flags);
    lemma_yx_bits(m.daa().flags);
    lemma_yx_bits(m.cpl().flags);
    lemma_yx_bits(m.scf().flags);
    lemma_yx_bits(m.ccf().flags);
}

/// After 16-bit arithmetic, bits 5 and 3 of F are those of the high byte
/// of the result.
pub proof fn law_yx_wide(m: Machine, dst: Register, src: Register)
    requires
        Register::is_add_form(dst, src),
        src.is_wide_operand(),
    ensures
        copies_yx(
            m.add_rp(dst, src).flags.byte(),
            high(crate::bits::wrap16(m.read_pair(dst) + m.read_pair(src))),
        ),
        copies_yx(
            m.adc_hl(src).flags.byte(),
            high(
                crate::bits::wrap16(
                    m.read_pair(Register::HL) + m.read_pair(src) + carry_in(m.flags.cf),
                ),
            ),
        ),
        copies_yx(
            m.sbc_hl(src).flags.byte(),
            high(
                crate::bits::wrap16(
                    m.read_pair(Register::HL) - m.read_pair(src) - carry_in(m.flags.cf),
                ),
            ),
        ),
{
    lemma_yx_bits(m.add_rp(dst, src).flags);
    lemma_yx_bits(m.adc_hl(src).flags);
    lemma_yx_bits(m.sbc_hl(src).flags);
}

/// After `CPI`, `CPD` and their repeating forms, bits 5 and 3 of F are
/// those of the byte that A was compared with; after `IN r,(C)`, `LD A,I`
/// and `LD A,R`, those of the byte that was loaded.
pub proof fn law_yx_loaded(m: Machine, up: bool, reg: Register)
    requires
        reg.is_plain(),
    ensures
        copies_yx(m.cp_block(up).flags.byte(), m.read8(m.read_pair(Register::HL))),
        copies_yx(m.cp_repeat(up).flags.byte(), m.read8(m.read_pair(Register::HL))),
        copies_yx(m.in_c(reg).flags.byte(), m.io.value),
        copies_yx(m.ld(Register::A, Register::I).flags.byte(), m.reg.i),
        copies_yx(m.ld(Register::A, Register::R).flags.byte(), m.reg.r),
{
    lemma_yx_bits(m.cp_block(up).flags);
    lemma_yx_bits(m.cp_repeat(up).flags);
    lemma_yx_bits(m.in_c(reg).flags);
    lemma_yx_bits(m.ld(Register::A, Register::I).flags);
    lemma_yx_bits(m.ld(Register::A, Register::R).flags);
}

impl Machine {
    /// The machine after `n` steps.
    pub open spec fn run(self, n: nat) -> Machine
        decreases n,
    {
        if n == 0 {
            self
        } else {
            self.step().run((n - 1) as nat)
        }
    }

    /// The first byte of the instruction at the program counter.
    pub open spec fn opcode_at_pc(self) -> u16 {
        self.read8(self.reg.pc) as u16
    }

    /// The opcode fetches that the refresh register counts over `n`
    /// steps: for each instruction its opcode byte, and its prefix byte if
    /// it has one.
    pub open spec fn fetches(self, n: nat) -> nat
        decreases n,
    {
        if n == 0 {
            0
        } else {
            Machine::fetch_count(self.opcode_at_pc()) + self.step().fetches((n - 1) as nat)
        }
    }

    /// Whether each of `n` steps finds an instruction that is defined and
    /// is not `LD R,A`.
    pub open spec fn runs_without_refresh_load(self, n: nat) -> bool
        decreases n,
    {
        n == 0 || (self.step_known() && !self.fetch().loads_refresh(self.opcode_at_pc())
            && self.step().runs_without_refresh_load((n - 1) as nat))
    }
}

/// A step that runs an instruction other than `LD R,A` advances the
/// refresh register by the opcode fetches of the instruction.
pub proof fn law_step_refresh(m: Machine)
    requires
        m.step_known(),
        !m.fetch().loads_refresh(m.opcode_at_pc()),
    ensures
        m.step().reg.r == crate::step::refreshed(
            m.reg.r,
            Machine::fetch_count(m.opcode_at_pc()),
        ),
{
    crate::frame::lemma_decode_steady(m.fetch(), m.opcode_at_pc());
}

/// The shadow registers and flags are reached by `EX AF,AF'` and `EXX`
/// alone: a step that runs another instruction leaves A', F' and B' to L'
/// as they are.
pub proof fn law_shadow_bank(m: Machine)
    requires
        m.step_known(),
        !Machine::exchanges_bank(m.opcode_at_pc()),
    ensures
        crate::shadow::shadow_kept(m, m.step()),
        m.step().reg.a_ == m.reg.a_,
        m.step().flags.shadow_byte() == m.flags.shadow_byte(),
        m.step().reg.b_ == m.reg.b_ && m.step().reg.c_ == m.reg.c_,
        m.step().reg.d_ == m.reg.d_ && m.step().reg.e_ == m.reg.e_,
        m.step().reg.h_ == m.reg.h_ && m.step().reg.l_ == m.reg.l_,
{
    crate::shadow::lemma_decode_shadow(m.fetch(), m.opcode_at_pc());
    reveal(crate::shadow::shadow_kept);
}

/// A step takes between 4 and 23 T-states, so that the cycle counter
/// does not go down within a step unless it wraps.
pub proof fn law_step_time(m: Machine)
    requires
        m.step_known(),
    ensures
        4 <= m.step().cycles.wrapping_sub(m.cycles) <= 23,
        4 <= m.step_cost() <= 23,
        m.cycles + 23 <= usize::MAX ==> m.step().cycles >= m.cycles + 4,
{
    reveal(Machine::step_cost);
    crate::frame::lemma_decode_time(m.fetch(), m.opcode_at_pc());
}

/// After `n` instructions, none of them `LD R,A`, bit 7 of the refresh
/// register is what it was, and bits 0 to 6 have counted the opcode fetches
/// modulo 128.
pub proof fn law_refresh_register(m: Machine, n: nat)
    requires
        m.runs_without_refresh_load(n),
    ensures
        m.run(n).reg.r / 128 == m.reg.r / 128,
        m.run(n).reg.r % 128 == (m.reg.r % 128 + m.fetches(n)) % 128,
        m.run(n).reg.r == crate::step::refreshed(m.reg.r, m.fetches(n)),
    decreases n,
{
    if n == 0 {
        crate::step::lemma_refreshed(m.reg.r, 0, 0);
    } else {
        let k = Machine::fetch_count(m.opcode_at_pc());
        let rest = m.step().fetches((n - 1) as nat);
        law_step_refresh(m);
        law_refresh_register(m.step(), (n - 1) as nat);
        crate::step::lemma_refreshed(m.reg.r, k, rest);
        crate::step::lemma_refreshed(m.reg.r, k + rest, 0);
    }
}

} // verus!
