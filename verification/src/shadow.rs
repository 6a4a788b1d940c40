//! Proofs that only the two exchange instructions reach the shadow bank.

use vstd::prelude::*;
use crate::bits::low;
use crate::instruction_info::Register;
use crate::machine::Machine;
use crate::plane::{code_y, code_z, extended_known, select_shift};
use crate::rotate::Shift;

verus! {

/// Whether `n` has the shadow registers and the shadow flags of `m`.
#[verifier::opaque]
pub open spec fn shadow_kept(m: Machine, n: Machine) -> bool {
    &&& n.reg.a_ == m.reg.a_ && n.reg.b_ == m.reg.b_ && n.reg.c_ == m.reg.c_
    &&& n.reg.d_ == m.reg.d_ && n.reg.e_ == m.reg.e_ && n.reg.h_ == m.reg.h_
    &&& n.reg.l_ == m.reg.l_
    &&& n.flags.sf_ == m.flags.sf_ && n.flags.zf_ == m.flags.zf_ && n.flags.yf_ == m.flags.yf_
    &&& n.flags.hf_ == m.flags.hf_ && n.flags.xf_ == m.flags.xf_ && n.flags.pf_ == m.flags.pf_
    &&& n.flags.nf_ == m.flags.nf_ && n.flags.cf_ == m.flags.cf_
}

/// A write to memory leaves the shadow bank alone.
pub proof fn lemma_shadow_write8(m: Machine, addr: u16, v: u8)
    ensures
        shadow_kept(m, m.write8(addr, v)),
        m.write8(addr, v).reg == m.reg,
        m.write8(addr, v).flags == m.flags,
{
    reveal(shadow_kept);
}

/// A write of a word to memory leaves the shadow bank alone.
pub proof fn lemma_shadow_write16(m: Machine, addr: u16, w: u16)
    ensures
        shadow_kept(m, m.write16(addr, w)),
        m.write16(addr, w).reg == m.reg,
        m.write16(addr, w).flags == m.flags,
{
    reveal(shadow_kept);
    lemma_shadow_write8(m, addr, low(w));
    lemma_shadow_write8(m.write8(addr, low(w)), addr.wrapping_add(1), crate::bits::high(w));
}

/// A push leaves the shadow bank alone.
pub proof fn lemma_shadow_push16(m: Machine, w: u16)
    ensures
        shadow_kept(m, m.push16(w)),
        m.push16(w).flags == m.flags,
        m.push16(w).reg == (crate::cpu::Registers { sp: m.reg.sp.wrapping_sub(2), ..m.reg }),
{
    reveal(shadow_kept);
    let sp = m.reg.sp.wrapping_sub(2);
    lemma_shadow_write16(Machine { reg: crate::cpu::Registers { sp: sp, ..m.reg }, ..m }, sp, w);
}

/// `add` leaves the shadow bank alone.
pub proof fn lemma_shadow_add(m: Machine, reg: Register)
    ensures
        shadow_kept(m, m.add(reg)),
{
    reveal(shadow_kept);
}

/// `adc` leaves the shadow bank alone.
pub proof fn lemma_shadow_adc(m: Machine, reg: Register)
    ensures
        shadow_kept(m, m.adc(reg)),
{
    reveal(shadow_kept);
}

/// `sub` leaves the shadow bank alone.
pub proof fn lemma_shadow_sub(m: Machine, reg: Register)
    ensures
        shadow_kept(m, m.sub(reg)),
{
    reveal(shadow_kept);
}

/// `sbc` leaves the shadow bank alone.
pub proof fn lemma_shadow_sbc(m: Machine, reg: Register)
    ensures
        shadow_kept(m, m.sbc(reg)),
{
    reveal(shadow_kept);
}

/// `and` leaves the shadow bank alone.
pub proof fn lemma_shadow_and(m: Machine, reg: Register)
    ensures
        shadow_kept(m, m.and(reg)),
{
    reveal(shadow_kept);
}

/// `xor` leaves the shadow bank alone.
pub proof fn lemma_shadow_xor(m: Machine, reg: Register)
    ensures
        shadow_kept(m, m.xor(reg)),
{
    reveal(shadow_kept);
}

/// `ora` leaves the shadow bank alone.
pub proof fn lemma_shadow_ora(m: Machine, reg: Register)
    ensures
        shadow_kept(m, m.ora(reg)),
{
    reveal(shadow_kept);
}

/// `cmp` leaves the shadow bank alone.
pub proof fn lemma_shadow_cmp(m: Machine, reg: Register)
    ensures
        shadow_kept(m, m.cmp(reg)),
{
    reveal(shadow_kept);
}

/// `inc` leaves the shadow bank alone.
pub proof fn lemma_shadow_inc(m: Machine, reg: Register)
    ensures
        shadow_kept(m, m.inc(reg)),
{
    reveal(shadow_kept);
}

/// `dec` leaves the shadow bank alone.
pub proof fn lemma_shadow_dec(m: Machine, reg: Register)
    ensures
        shadow_kept(m, m.dec(reg)),
{
    reveal(shadow_kept);
}

/// `mvi` leaves the shadow bank alone.
pub proof fn lemma_shadow_mvi(m: Machine, reg: Register)
    ensures
        shadow_kept(m, m.mvi(reg)),
{
    reveal(shadow_kept);
}

/// `in_c` leaves the shadow bank alone.
pub proof fn lemma_shadow_in_c(m: Machine, reg: Register)
    ensures
        shadow_kept(m, m.in_c(reg)),
{
    reveal(shadow_kept);
}

/// `out` leaves the shadow bank alone.
pub proof fn lemma_shadow_out(m: Machine, reg: Register)
    ensures
        shadow_kept(m, m.out(reg)),
{
    reveal(shadow_kept);
}

/// `nop` leaves the shadow bank alone.
pub proof fn lemma_shadow_nop(m: Machine)
    ensures
        shadow_kept(m, m.nop()),
{
    reveal(shadow_kept);
}

/// `halt` leaves the shadow bank alone.
pub proof fn lemma_shadow_halt(m: Machine)
    ensures
        shadow_kept(m, m.halt()),
{
    reveal(shadow_kept);
}

/// `ex_de_hl` leaves the shadow bank alone.
pub proof fn lemma_shadow_ex_de_hl(m: Machine)
    ensures
        shadow_kept(m, m.ex_de_hl()),
{
    reveal(shadow_kept);
}

/// `xthl` leaves the shadow bank alone.
pub proof fn lemma_shadow_xthl(m: Machine)
    ensures
        shadow_kept(m, m.xthl()),
{
    reveal(shadow_kept);
    lemma_shadow_write16(m, m.reg.sp, m.read_pair(Register::HL));
}

/// `sphl` leaves the shadow bank alone.
pub proof fn lemma_shadow_sphl(m: Machine)
    ensures
        shadow_kept(m, m.sphl()),
{
    reveal(shadow_kept);
}

/// `pchl` leaves the shadow bank alone.
pub proof fn lemma_shadow_pchl(m: Machine)
    ensures
        shadow_kept(m, m.pchl()),
{
    reveal(shadow_kept);
}

/// `rlca` leaves the shadow bank alone.
pub proof fn lemma_shadow_rlca(m: Machine)
    ensures
        shadow_kept(m, m.rlca()),
{
    reveal(shadow_kept);
}

/// `rrca` leaves the shadow bank alone.
pub proof fn lemma_shadow_rrca(m: Machine)
    ensures
        shadow_kept(m, m.rrca()),
{
    reveal(shadow_kept);
}

/// `rla` leaves the shadow bank alone.
pub proof fn lemma_shadow_rla(m: Machine)
    ensures
        shadow_kept(m, m.rla()),
{
    reveal(shadow_kept);
}

/// `rra` leaves the shadow bank alone.
pub proof fn lemma_shadow_rra(m: Machine)
    ensures
        shadow_kept(m, m.rra()),
{
    reveal(shadow_kept);
}

/// `daa` leaves the shadow bank alone.
pub proof fn lemma_shadow_daa(m: Machine)
    ensures
        shadow_kept(m, m.daa()),
{
    reveal(shadow_kept);
}

/// `cpl` leaves the shadow bank alone.
pub proof fn lemma_shadow_cpl(m: Machine)
    ensures
        shadow_kept(m, m.cpl()),
{
    reveal(shadow_kept);
}

/// `scf` leaves the shadow bank alone.
pub proof fn lemma_shadow_scf(m: Machine)
    ensures
        shadow_kept(m, m.scf()),
{
    reveal(shadow_kept);
}

/// `ccf` leaves the shadow bank alone.
pub proof fn lemma_shadow_ccf(m: Machine)
    ensures
        shadow_kept(m, m.ccf()),
{
    reveal(shadow_kept);
}

/// `adi` leaves the shadow bank alone.
pub proof fn lemma_shadow_adi(m: Machine)
    ensures
        shadow_kept(m, m.adi()),
{
    reveal(shadow_kept);
}

/// `adc_im` leaves the shadow bank alone.
pub proof fn lemma_shadow_adc_im(m: Machine)
    ensures
        shadow_kept(m, m.adc_im()),
{
    reveal(shadow_kept);
}

/// `sui` leaves the shadow bank alone.
pub proof fn lemma_shadow_sui(m: Machine)
    ensures
        shadow_kept(m, m.sui()),
{
    reveal(shadow_kept);
}

/// `sbi` leaves the shadow bank alone.
pub proof fn lemma_shadow_sbi(m: Machine)
    ensures
        shadow_kept(m, m.sbi()),
{
    reveal(shadow_kept);
}

/// `ani` leaves the shadow bank alone.
pub proof fn lemma_shadow_ani(m: Machine)
    ensures
        shadow_kept(m, m.ani()),
{
    reveal(shadow_kept);
}

/// `xri` leaves the shadow bank alone.
pub proof fn lemma_shadow_xri(m: Machine)
    ensures
        shadow_kept(m, m.xri()),
{
    reveal(shadow_kept);
}

/// `ori` leaves the shadow bank alone.
pub proof fn lemma_shadow_ori(m: Machine)
    ensures
        shadow_kept(m, m.ori()),
{
    reveal(shadow_kept);
}

/// `cp_im` leaves the shadow bank alone.
pub proof fn lemma_shadow_cp_im(m: Machine)
    ensures
        shadow_kept(m, m.cp_im()),
{
    reveal(shadow_kept);
}

/// `ld_nn_r` leaves the shadow bank alone.
pub proof fn lemma_shadow_ld_nn_r(m: Machine)
    ensures
        shadow_kept(m, m.ld_nn_r()),
{
    reveal(shadow_kept);
}

/// `ld_r_mem_nn` leaves the shadow bank alone.
pub proof fn lemma_shadow_ld_r_mem_nn(m: Machine)
    ensures
        shadow_kept(m, m.ld_r_mem_nn()),
{
    reveal(shadow_kept);
}

/// `in_a` leaves the shadow bank alone.
pub proof fn lemma_shadow_in_a(m: Machine)
    ensures
        shadow_kept(m, m.in_a()),
{
    reveal(shadow_kept);
}

/// `ret` leaves the shadow bank alone.
pub proof fn lemma_shadow_ret(m: Machine)
    ensures
        shadow_kept(m, m.ret()),
{
    reveal(shadow_kept);
}

/// `ldi` leaves the shadow bank alone.
pub proof fn lemma_shadow_ldi(m: Machine)
    ensures
        shadow_kept(m, m.ldi()),
{
    reveal(shadow_kept);
}

/// `ldir` leaves the shadow bank alone.
pub proof fn lemma_shadow_ldir(m: Machine)
    ensures
        shadow_kept(m, m.ldir()),
{
    reveal(shadow_kept);
}

/// `djnz` leaves the shadow bank alone.
pub proof fn lemma_shadow_djnz(m: Machine)
    ensures
        shadow_kept(m, m.djnz()),
{
    reveal(shadow_kept);
}

/// `cp_block` leaves the shadow bank alone.
pub proof fn lemma_shadow_cp_block(m: Machine, up: bool)
    ensures
        shadow_kept(m, m.cp_block(up)),
{
    reveal(shadow_kept);
}

/// `cp_repeat` leaves the shadow bank alone.
pub proof fn lemma_shadow_cp_repeat(m: Machine, up: bool)
    ensures
        shadow_kept(m, m.cp_repeat(up)),
{
    reveal(shadow_kept);
}

/// `jr_cond` leaves the shadow bank alone.
pub proof fn lemma_shadow_jr_cond(m: Machine, c: bool)
    ensures
        shadow_kept(m, m.jr_cond(c)),
{
    reveal(shadow_kept);
}

/// `jp_cond` leaves the shadow bank alone.
pub proof fn lemma_shadow_jp_cond(m: Machine, c: bool)
    ensures
        shadow_kept(m, m.jp_cond(c)),
{
    reveal(shadow_kept);
}

/// `ret_cond` leaves the shadow bank alone.
pub proof fn lemma_shadow_ret_cond(m: Machine, c: bool)
    ensures
        shadow_kept(m, m.ret_cond(c)),
{
    reveal(shadow_kept);
}

/// `interrupt` leaves the shadow bank alone.
pub proof fn lemma_shadow_interrupt(m: Machine, c: bool)
    ensures
        shadow_kept(m, m.interrupt(c)),
{
    reveal(shadow_kept);
}

/// `call_cond` leaves the shadow bank alone.
pub proof fn lemma_shadow_call_cond(m: Machine, addr: u16, c: bool)
    ensures
        shadow_kept(m, m.call_cond(addr, c)),
{
    reveal(shadow_kept);
    lemma_shadow_push16(m, m.reg.pc.wrapping_add(3));
}

/// `call` leaves the shadow bank alone.
pub proof fn lemma_shadow_call(m: Machine, addr: u16)
    ensures
        shadow_kept(m, m.call(addr)),
{
    reveal(shadow_kept);
    lemma_shadow_push16(m, m.reg.pc.wrapping_add(3));
}

/// `rst` leaves the shadow bank alone.
pub proof fn lemma_shadow_rst(m: Machine, addr: u16)
    ensures
        shadow_kept(m, m.rst(addr)),
{
    reveal(shadow_kept);
    lemma_shadow_push16(m, m.reg.pc.wrapping_add(1));
}

/// `jp` leaves the shadow bank alone.
pub proof fn lemma_shadow_jp(m: Machine, addr: u16)
    ensures
        shadow_kept(m, m.jp(addr, 8)),
{
    reveal(shadow_kept);
}

/// `ld_rp_nn` leaves the shadow bank alone.
pub proof fn lemma_shadow_ld_rp_nn(m: Machine, rp: Register)
    ensures
        shadow_kept(m, m.ld_rp_nn(rp)),
{
    reveal(shadow_kept);
}

/// `inc_rp` leaves the shadow bank alone.
pub proof fn lemma_shadow_inc_rp(m: Machine, rp: Register)
    ensures
        shadow_kept(m, m.inc_rp(rp)),
{
    reveal(shadow_kept);
}

/// `dec_rp` leaves the shadow bank alone.
pub proof fn lemma_shadow_dec_rp(m: Machine, rp: Register)
    ensures
        shadow_kept(m, m.dec_rp(rp)),
{
    reveal(shadow_kept);
}

/// `push` leaves the shadow bank alone.
pub proof fn lemma_shadow_push(m: Machine, rp: Register)
    ensures
        shadow_kept(m, m.push(rp)),
{
    reveal(shadow_kept);
    lemma_shadow_push16(m, m.read_pair(rp));
}

/// `pop` leaves the shadow bank alone.
pub proof fn lemma_shadow_pop(m: Machine, rp: Register)
    ensures
        shadow_kept(m, m.pop(rp)),
{
    reveal(shadow_kept);
}

/// `lhld` leaves the shadow bank alone.
pub proof fn lemma_shadow_lhld(m: Machine, rp: Register)
    ensures
        shadow_kept(m, m.lhld(rp)),
{
    reveal(shadow_kept);
}

/// `shld` leaves the shadow bank alone.
pub proof fn lemma_shadow_shld(m: Machine, rp: Register)
    ensures
        shadow_kept(m, m.shld(rp)),
{
    reveal(shadow_kept);
    lemma_shadow_write16(m, m.operand16(rp), m.read_pair(rp));
}

/// `ld_reg_mem_rp` leaves the shadow bank alone.
pub proof fn lemma_shadow_ld_reg_mem_rp(m: Machine, rp: Register)
    ensures
        shadow_kept(m, m.ld_reg_mem_rp(rp)),
{
    reveal(shadow_kept);
}

/// `add_rp` leaves the shadow bank alone.
pub proof fn lemma_shadow_add_rp(m: Machine, dst: Register, src: Register)
    ensures
        shadow_kept(m, m.add_rp(dst, src)),
{
    reveal(shadow_kept);
}

/// `adc_hl` leaves the shadow bank alone.
pub proof fn lemma_shadow_adc_hl(m: Machine, src: Register)
    ensures
        shadow_kept(m, m.adc_hl(src)),
{
    reveal(shadow_kept);
}

/// `sbc_hl` leaves the shadow bank alone.
pub proof fn lemma_shadow_sbc_hl(m: Machine, src: Register)
    ensures
        shadow_kept(m, m.sbc_hl(src)),
{
    reveal(shadow_kept);
}

/// `ld_mem_nn_rp` leaves the shadow bank alone.
pub proof fn lemma_shadow_ld_mem_nn_rp(m: Machine, rp: Register)
    ensures
        shadow_kept(m, m.ld_mem_nn_rp(rp)),
{
    reveal(shadow_kept);
    lemma_shadow_write16(m, m.ed_operand16(), m.read_pair(rp));
}

/// `ld_rp_mem_nn` leaves the shadow bank alone.
pub proof fn lemma_shadow_ld_rp_mem_nn(m: Machine, rp: Register)
    ensures
        shadow_kept(m, m.ld_rp_mem_nn(rp)),
{
    reveal(shadow_kept);
}

/// `set_interrupt_mode` leaves the shadow bank alone.
pub proof fn lemma_shadow_set_interrupt_mode(m: Machine, mode: u8)
    ensures
        shadow_kept(m, m.set_interrupt_mode(mode)),
{
    reveal(shadow_kept);
}

/// `ld` leaves the shadow bank alone.
pub proof fn lemma_shadow_ld(m: Machine, dst: Register, src: Register)
    ensures
        shadow_kept(m, m.ld(dst, src)),
{
    reveal(shadow_kept);
    lemma_shadow_write8(m, m.read_pair(dst), m.ld_source(src));
    lemma_shadow_write8(m, m.read_pair(Register::HL), m.ld_source(src));
    lemma_shadow_write8(m, m.ix_d(), m.ld_source(src));
    lemma_shadow_write8(m, m.iy_d(), m.ld_source(src));
}

/// `shift` leaves the shadow bank alone.
pub proof fn lemma_shadow_shift(m: Machine, kind: Shift, reg: Register)
    ensures
        shadow_kept(m, m.shift(kind, reg)),
{
    reveal(shadow_kept);
}

/// `bit` leaves the shadow bank alone.
pub proof fn lemma_shadow_bit(m: Machine, bit: u8, reg: Register)
    ensures
        shadow_kept(m, m.bit(bit, reg)),
{
    reveal(shadow_kept);
}

/// `res` leaves the shadow bank alone.
pub proof fn lemma_shadow_res(m: Machine, bit: u8, reg: Register)
    ensures
        shadow_kept(m, m.res(bit, reg)),
{
    reveal(shadow_kept);
}

/// `set` leaves the shadow bank alone.
pub proof fn lemma_shadow_set(m: Machine, bit: u8, reg: Register)
    ensures
        shadow_kept(m, m.set(bit, reg)),
{
    reveal(shadow_kept);
}

/// The opcodes 0x00 to 0x3F, but for `EX AF,AF'`, leave the shadow bank alone.
pub proof fn lemma_shadow_quarter0(m: Machine, op: u8, index: Register)
    requires
        index.is_pointer(),
        op < 0x40,
    ensures
        op != 0x08 ==> shadow_kept(m, m.quarter0(op, index)),
{
    let z = code_z(op);
    let y = code_y(op);
    let p = y / 2;
    let rp = Register::select_pair(p, index);
    let r = Register::select(y, index);
    if z == 0 {
        if y < 2 {
            lemma_shadow_nop(m);
            lemma_shadow_halt(m);
        } else if y == 2 {
            lemma_shadow_ldi(m);
            lemma_shadow_ldir(m);
            lemma_shadow_djnz(m);
        } else if y == 3 {
            lemma_shadow_jr_cond(m, true);
            lemma_shadow_jp_cond(m, true);
            lemma_shadow_ret_cond(m, true);
            lemma_shadow_interrupt(m, true);
        } else {
            lemma_shadow_jr_cond(m, m.condition(y - 4));
            lemma_shadow_jp_cond(m, m.condition(y - 4));
            lemma_shadow_ret_cond(m, m.condition(y - 4));
            lemma_shadow_interrupt(m, m.condition(y - 4));
        }
    } else if z == 1 {
        lemma_shadow_ld_rp_nn(m, rp);
        lemma_shadow_inc_rp(m, rp);
        lemma_shadow_dec_rp(m, rp);
        lemma_shadow_add_rp(m, index, rp);
        lemma_shadow_adc_hl(m, rp);
        lemma_shadow_sbc_hl(m, rp);
    } else if z == 2 {
        if p == 0 {
            lemma_shadow_ld(m, Register::BC, Register::A);
            lemma_shadow_ld(m, Register::A, Register::BC);
        } else if p == 1 {
            lemma_shadow_ld(m, Register::DE, Register::A);
            lemma_shadow_lhld(m, Register::DE);
            lemma_shadow_shld(m, Register::DE);
            lemma_shadow_ld_reg_mem_rp(m, Register::DE);
        } else if p == 2 {
            lemma_shadow_lhld(m, index);
            lemma_shadow_shld(m, index);
            lemma_shadow_ld_reg_mem_rp(m, index);
        } else {
            lemma_shadow_ld_nn_r(m);
            lemma_shadow_ld_r_mem_nn(m);
            lemma_shadow_in_a(m);
            lemma_shadow_ret(m);
        }
    } else if z == 3 {
        lemma_shadow_ld_rp_nn(m, rp);
        lemma_shadow_inc_rp(m, rp);
        lemma_shadow_dec_rp(m, rp);
    } else if z < 7 {
        lemma_shadow_inc(m, r);
        lemma_shadow_dec(m, r);
        lemma_shadow_mvi(m, r);
    } else {
        if y < 4 {
            lemma_shadow_rlca(m);
            lemma_shadow_rrca(m);
            lemma_shadow_rla(m);
            lemma_shadow_rra(m);
        } else {
            lemma_shadow_daa(m);
            lemma_shadow_cpl(m);
            lemma_shadow_scf(m);
            lemma_shadow_ccf(m);
        }
    }
}

/// The opcodes 0x40 to 0x7F leave the shadow bank alone.
pub proof fn lemma_shadow_quarter1(m: Machine, op: u8, index: Register)
    requires
        index.is_pointer(),
    ensures
        shadow_kept(m, m.quarter1(op, index)),
{
    let y = code_y(op);
    let z = code_z(op);
    lemma_shadow_nop(m);
    lemma_shadow_halt(m);
    lemma_shadow_ld(m, index.pointee(), Register::select(z, Register::HL));
    lemma_shadow_ld(m, Register::select(y, Register::HL), index.pointee());
    lemma_shadow_ld(m, Register::select(y, index), Register::select(z, index));
}

/// The opcodes 0x80 to 0xBF leave the shadow bank alone.
pub proof fn lemma_shadow_quarter2(m: Machine, op: u8, index: Register)
    requires
        index.is_pointer(),
    ensures
        shadow_kept(m, m.quarter2(op, index)),
{
    let r = Register::select(code_z(op), index);
    lemma_shadow_add(m, r);
    lemma_shadow_adc(m, r);
    lemma_shadow_sub(m, r);
    lemma_shadow_sbc(m, r);
    lemma_shadow_and(m, r);
    lemma_shadow_xor(m, r);
    lemma_shadow_ora(m, r);
    lemma_shadow_cmp(m, r);
}

/// The opcodes 0xC0 to 0xFF, but for `EXX`, leave the shadow bank alone.
pub proof fn lemma_shadow_quarter3(m: Machine, op: u8, index: Register)
    requires
        index.is_pointer(),
        op >= 0xC0,
    ensures
        op != 0xD9 ==> shadow_kept(m, m.quarter3(op, index)),
{
    let z = code_z(op);
    let y = code_y(op);
    let p = y / 2;
    let q = y % 2;
    let rp = Register::select_stack(p, index);
    if z == 0 {
        lemma_shadow_jr_cond(m, m.condition(y));
        lemma_shadow_jp_cond(m, m.condition(y));
        lemma_shadow_ret_cond(m, m.condition(y));
        lemma_shadow_interrupt(m, m.condition(y));
    } else if z == 1 {
        if q == 0 {
            lemma_shadow_push(m, rp);
            lemma_shadow_pop(m, rp);
        } else if p == 0 {
            lemma_shadow_ld_nn_r(m);
            lemma_shadow_ld_r_mem_nn(m);
            lemma_shadow_in_a(m);
            lemma_shadow_ret(m);
        } else if p == 1 {
            lemma_shadow_nop(m);
            lemma_shadow_halt(m);
        } else if p == 2 {
            lemma_shadow_ex_de_hl(m);
            lemma_shadow_xthl(m);
            lemma_shadow_sphl(m);
            lemma_shadow_pchl(m);
            lemma_shadow_call_cond(m, m.read_pair(index), true);
            lemma_shadow_call(m, m.read_pair(index));
            lemma_shadow_rst(m, m.read_pair(index));
            lemma_shadow_jp(m, m.read_pair(index));
        } else {
            lemma_shadow_ex_de_hl(m);
            lemma_shadow_xthl(m);
            lemma_shadow_sphl(m);
            lemma_shadow_pchl(m);
        }
    } else if z == 2 {
        lemma_shadow_jr_cond(m, m.condition(y));
        lemma_shadow_jp_cond(m, m.condition(y));
        lemma_shadow_ret_cond(m, m.condition(y));
        lemma_shadow_interrupt(m, m.condition(y));
    } else if z == 3 {
        if y < 2 {
            lemma_shadow_jr_cond(m, true);
            lemma_shadow_jp_cond(m, true);
            lemma_shadow_ret_cond(m, true);
            lemma_shadow_interrupt(m, true);
        } else if y == 2 {
            lemma_shadow_in_c(m, Register::A);
            lemma_shadow_out(m, Register::A);
        } else if y == 3 {
            lemma_shadow_ld_nn_r(m);
            lemma_shadow_ld_r_mem_nn(m);
            lemma_shadow_in_a(m);
            lemma_shadow_ret(m);
        } else if y < 6 {
            lemma_shadow_ex_de_hl(m);
            lemma_shadow_xthl(m);
            lemma_shadow_sphl(m);
            lemma_shadow_pchl(m);
        } else if y == 6 {
            lemma_shadow_jr_cond(m, false);
            lemma_shadow_jp_cond(m, false);
            lemma_shadow_ret_cond(m, false);
            lemma_shadow_interrupt(m, false);
        } else {
            lemma_shadow_jr_cond(m, true);
            lemma_shadow_jp_cond(m, true);
            lemma_shadow_ret_cond(m, true);
            lemma_shadow_interrupt(m, true);
        }
    } else if z == 4 {
        lemma_shadow_call_cond(m, m.imm16(), m.condition(y));
        lemma_shadow_call(m, m.imm16());
        lemma_shadow_rst(m, m.imm16());
        lemma_shadow_jp(m, m.imm16());
    } else if z == 5 {
        if q == 0 {
            lemma_shadow_push(m, rp);
            lemma_shadow_pop(m, rp);
        } else {
            lemma_shadow_call_cond(m, m.imm16(), true);
            lemma_shadow_call(m, m.imm16());
            lemma_shadow_rst(m, m.imm16());
            lemma_shadow_jp(m, m.imm16());
        }
    } else if z == 6 {
        if y < 4 {
            lemma_shadow_adi(m);
            lemma_shadow_adc_im(m);
            lemma_shadow_sui(m);
            lemma_shadow_sbi(m);
        } else {
            lemma_shadow_ani(m);
            lemma_shadow_xri(m);
            lemma_shadow_ori(m);
            lemma_shadow_cp_im(m);
        }
    } else {
        lemma_shadow_call_cond(m, (y * 8) as u16, true);
        lemma_shadow_call(m, (y * 8) as u16);
        lemma_shadow_rst(m, (y * 8) as u16);
        lemma_shadow_jp(m, (y * 8) as u16);
    }
}

/// The primary plane, but for `EX AF,AF'` and `EXX`, leaves the shadow bank alone.
pub proof fn lemma_shadow_primary(m: Machine, op: u8, index: Register)
    requires
        index.is_pointer(),
    ensures
        op != 0x08 && op != 0xD9 ==> shadow_kept(m, m.primary(op, index)),
{
    if op < 0x40 {
        lemma_shadow_quarter0(m, op, index);
    } else if op < 0x80 {
        lemma_shadow_quarter1(m, op, index);
    } else if op < 0xC0 {
        lemma_shadow_quarter2(m, op, index);
    } else {
        lemma_shadow_quarter3(m, op, index);
    }
}

/// The CB plane leaves the shadow bank alone.
pub proof fn lemma_shadow_plane_bits(m: Machine, op: u8, index: Register)
    requires
        index.is_pointer(),
    ensures
        shadow_kept(m, m.bits(op, index)),
{
    let y = code_y(op);
    let r = if index == Register::HL {
        Register::select(code_z(op), index)
    } else {
        index.pointee()
    };
    lemma_shadow_shift(m, select_shift(y), r);
    lemma_shadow_bit(m, y as u8, r);
    lemma_shadow_res(m, y as u8, r);
    lemma_shadow_set(m, y as u8, r);
}

/// The ED plane leaves the shadow bank alone.
pub proof fn lemma_shadow_extended(m: Machine, op: u8)
    requires
        extended_known(op),
        op != 0x4F,
    ensures
        shadow_kept(m, m.extended(op)),
{
    let z = code_z(op);
    let y = code_y(op);
    let rp = Register::select_pair(y / 2, Register::HL);
    if op == 0xA0 || op == 0xB0 {
        lemma_shadow_ldi(m);
        lemma_shadow_ldir(m);
        lemma_shadow_djnz(m);
    } else if op == 0xA1 || op == 0xB1 {
        lemma_shadow_cp_block(m, true);
        lemma_shadow_cp_repeat(m, true);
    } else if op == 0xA9 || op == 0xB9 {
        lemma_shadow_cp_block(m, false);
        lemma_shadow_cp_repeat(m, false);
    } else if z == 0 {
        lemma_shadow_in_c(m, Register::select(y, Register::HL));
        lemma_shadow_out(m, Register::select(y, Register::HL));
    } else if z == 2 {
        lemma_shadow_add_rp(m, Register::HL, rp);
        lemma_shadow_adc_hl(m, rp);
        lemma_shadow_sbc_hl(m, rp);
    } else if z == 3 {
        lemma_shadow_ld_mem_nn_rp(m, rp);
        lemma_shadow_ld_rp_mem_nn(m, rp);
        lemma_shadow_set_interrupt_mode(m, 0);
    } else if z == 6 {
        lemma_shadow_ld_mem_nn_rp(m, rp);
        lemma_shadow_ld_rp_mem_nn(m, rp);
        lemma_shadow_set_interrupt_mode(m, 0);
        lemma_shadow_ld_mem_nn_rp(m, rp);
        lemma_shadow_ld_rp_mem_nn(m, rp);
        lemma_shadow_set_interrupt_mode(m, 1);
        lemma_shadow_ld_mem_nn_rp(m, rp);
        lemma_shadow_ld_rp_mem_nn(m, rp);
        lemma_shadow_set_interrupt_mode(m, 2);
    } else {
        if y == 0 {
            lemma_shadow_ld(m, Register::I, Register::A);
        } else if y == 2 {
            lemma_shadow_ld(m, Register::A, Register::I);
        } else {
            lemma_shadow_ld(m, Register::A, Register::R);
        }
    }
}

impl Machine {
    /// Whether the instruction with first byte `opcode` is `EX AF,AF'` or
    /// `EXX`, the two instructions that reach the shadow bank.
    pub open spec fn exchanges_bank(opcode: u16) -> bool {
        low(opcode) == 0x08 || low(opcode) == 0xD9
    }
}

/// Every instruction but `EX AF,AF'` and `EXX` leaves the shadow bank alone.
pub proof fn lemma_decode_shadow(m: Machine, opcode: u16)
    requires
        m.known(opcode),
        !Machine::exchanges_bank(opcode),
    ensures
        shadow_kept(m, m.decode(opcode)),
{
    let op = low(opcode);
    let next = m.imm8();
    let index = Machine::index_of(op);
    let k: nat = if op == 0xCB || op == 0xED || op == 0xDD || op == 0xFD {
        2
    } else {
        1
    };
    let n = m.refresh(k);
    assert(shadow_kept(m, n)) by {
        reveal(shadow_kept);
    }
    if op == 0xCB {
        lemma_shadow_plane_bits(n, next, Register::HL);
    } else if op == 0xED {
        if next == 0x4F {
            lemma_shadow_ld(n, Register::R, Register::A);
        } else {
            lemma_shadow_extended(n, next);
        }
    } else if op == 0xDD || op == 0xFD {
        lemma_shadow_plane_bits(n, m.read8(m.reg.pc.wrapping_add(3)), index);
        lemma_shadow_primary(n, next, index);
    } else {
        lemma_shadow_primary(n, op, Register::HL);
    }
    assert(shadow_kept(n, m.decode(opcode)));
    reveal(shadow_kept);
}

} // verus!
