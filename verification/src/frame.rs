//! What no instruction does: proofs that the refresh register is only
//! counted up, and that every instruction takes a bounded time.

use vstd::prelude::*;
use crate::bits::low;
use crate::instruction_info::Register;
use crate::machine::Machine;
use crate::plane::{code_y, code_z, extended_known, is_prefix, select_shift};
use crate::rotate::Shift;
use crate::step::refreshed;

verus! {

/// Whether the instruction that led from `m` to `n` left the refresh
/// register alone and took between 4 and 23 T-states.
#[verifier::opaque]
pub open spec fn steady(m: Machine, n: Machine) -> bool {
    &&& n.reg.r == m.reg.r
    &&& 4 <= n.cycles.wrapping_sub(m.cycles) <= 23
}

/// Additions and subtractions on the accumulator are steady.
pub proof fn lemma_steady_add(m: Machine, reg: Register)
    requires
        reg != Register::R,
    ensures
        steady(m, m.add(reg)),
        steady(m, m.adc(reg)),
        steady(m, m.sub(reg)),
        steady(m, m.sbc(reg)),
{
    reveal(steady);
}

/// Logic operations and comparisons on the accumulator are steady.
pub proof fn lemma_steady_logic(m: Machine, reg: Register)
    requires
        reg != Register::R,
    ensures
        steady(m, m.and(reg)),
        steady(m, m.xor(reg)),
        steady(m, m.ora(reg)),
        steady(m, m.cmp(reg)),
{
    reveal(steady);
}

/// Increments, decrements and loads of an immediate byte are steady.
pub proof fn lemma_steady_inc(m: Machine, reg: Register)
    requires
        reg != Register::R,
    ensures
        steady(m, m.inc(reg)),
        steady(m, m.dec(reg)),
        steady(m, m.mvi(reg)),
{
    reveal(steady);
}

/// The port instructions on a register are steady.
pub proof fn lemma_steady_port(m: Machine, reg: Register)
    requires
        reg != Register::R,
    ensures
        steady(m, m.in_c(reg)),
        steady(m, m.out(reg)),
{
    reveal(steady);
}

/// `NOP`, `HALT` and the exchanges of register banks are steady.
pub proof fn lemma_steady_exchange(m: Machine)
    ensures
        steady(m, m.nop()),
        steady(m, m.halt()),
        steady(m, m.ex_af_af()),
        steady(m, m.exx()),
{
    reveal(steady);
}

/// The instructions on HL without an operand are steady.
pub proof fn lemma_steady_hl(m: Machine)
    ensures
        steady(m, m.ex_de_hl()),
        steady(m, m.xthl()),
        steady(m, m.sphl()),
        steady(m, m.pchl()),
{
    reveal(steady);
}

/// The rotates of the accumulator are steady.
pub proof fn lemma_steady_rotate_a(m: Machine)
    ensures
        steady(m, m.rlca()),
        steady(m, m.rrca()),
        steady(m, m.rla()),
        steady(m, m.rra()),
{
    reveal(steady);
}

/// `DAA`, `CPL`, `SCF` and `CCF` are steady.
pub proof fn lemma_steady_adjust(m: Machine)
    ensures
        steady(m, m.daa()),
        steady(m, m.cpl()),
        steady(m, m.scf()),
        steady(m, m.ccf()),
{
    reveal(steady);
}

/// Additions and subtractions of an immediate byte are steady.
pub proof fn lemma_steady_add_immediate(m: Machine)
    ensures
        steady(m, m.adi()),
        steady(m, m.adc_im()),
        steady(m, m.sui()),
        steady(m, m.sbi()),
{
    reveal(steady);
}

/// Logic operations and comparisons with an immediate byte are steady.
pub proof fn lemma_steady_logic_immediate(m: Machine)
    ensures
        steady(m, m.ani()),
        steady(m, m.xri()),
        steady(m, m.ori()),
        steady(m, m.cp_im()),
{
    reveal(steady);
}

/// The loads of A through an address, `IN A,(n)` and `RET` are steady.
pub proof fn lemma_steady_direct(m: Machine)
    ensures
        steady(m, m.ld_nn_r()),
        steady(m, m.ld_r_mem_nn()),
        steady(m, m.in_a()),
        steady(m, m.ret()),
{
    reveal(steady);
}

/// `LDI`, `LDIR` and `DJNZ` are steady.
pub proof fn lemma_steady_copy(m: Machine)
    ensures
        steady(m, m.ldi()),
        steady(m, m.ldir()),
        steady(m, m.djnz()),
{
    reveal(steady);
}

/// The block compares are steady.
pub proof fn lemma_steady_search(m: Machine, up: bool)
    ensures
        steady(m, m.cp_block(up)),
        steady(m, m.cp_repeat(up)),
{
    reveal(steady);
}

/// The conditional jumps and returns, `EI` and `DI` are steady.
pub proof fn lemma_steady_branch(m: Machine, c: bool)
    ensures
        steady(m, m.jr_cond(c)),
        steady(m, m.jp_cond(c)),
        steady(m, m.ret_cond(c)),
        steady(m, m.interrupt(c)),
{
    reveal(steady);
}

/// Calls, restarts and the jump through an index register are steady.
pub proof fn lemma_steady_call(m: Machine, addr: u16, c: bool)
    ensures
        steady(m, m.call_cond(addr, c)),
        steady(m, m.call(addr)),
        steady(m, m.rst(addr)),
        steady(m, m.jp(addr, 8)),
{
    reveal(steady);
}

/// The loads, increments and decrements of a pair are steady.
pub proof fn lemma_steady_counter(m: Machine, rp: Register)
    ensures
        steady(m, m.ld_rp_nn(rp)),
        steady(m, m.inc_rp(rp)),
        steady(m, m.dec_rp(rp)),
{
    reveal(steady);
}

/// `PUSH` and `POP` are steady.
pub proof fn lemma_steady_stack(m: Machine, rp: Register)
    ensures
        steady(m, m.push(rp)),
        steady(m, m.pop(rp)),
{
    reveal(steady);
}

/// The loads of a pair through an address, and of A through a pair, are steady.
pub proof fn lemma_steady_pointer(m: Machine, rp: Register)
    ensures
        steady(m, m.lhld(rp)),
        steady(m, m.shld(rp)),
        steady(m, m.ld_reg_mem_rp(rp)),
{
    reveal(steady);
}

/// The 16-bit additions and subtractions are steady.
pub proof fn lemma_steady_wide(m: Machine, dst: Register, src: Register)
    ensures
        steady(m, m.add_rp(dst, src)),
        steady(m, m.adc_hl(src)),
        steady(m, m.sbc_hl(src)),
{
    reveal(steady);
}

/// The loads of a pair of the ED plane and `IM` are steady.
pub proof fn lemma_steady_extended_load(m: Machine, rp: Register, mode: u8)
    ensures
        steady(m, m.ld_mem_nn_rp(rp)),
        steady(m, m.ld_rp_mem_nn(rp)),
        steady(m, m.set_interrupt_mode(mode)),
{
    reveal(steady);
}

/// `LD dst,src` is steady unless it loads the refresh register.
pub proof fn lemma_steady_ld(m: Machine, dst: Register, src: Register)
    requires
        dst != Register::R,
    ensures
        steady(m, m.ld(dst, src)),
{
    reveal(steady);
}

/// The instructions of the CB plane are steady.
pub proof fn lemma_steady_bits(m: Machine, kind: Shift, bit: u8, reg: Register)
    requires
        reg != Register::R,
    ensures
        steady(m, m.shift(kind, reg)),
        steady(m, m.bit(bit, reg)),
        steady(m, m.res(bit, reg)),
        steady(m, m.set(bit, reg)),
{
    reveal(steady);
}

/// The opcodes 0x00 to 0x3F are steady.
pub proof fn lemma_steady_quarter0(m: Machine, op: u8, index: Register)
    requires
        index.is_pointer(),
    ensures
        steady(m, m.quarter0(op, index)),
{
    let z = code_z(op);
    let y = code_y(op);
    let p = y / 2;
    let rp = Register::select_pair(p, index);
    let r = Register::select(y, index);
    if z == 0 {
        if y < 2 {
            lemma_steady_exchange(m);
        } else if y == 2 {
            lemma_steady_copy(m);
        } else if y == 3 {
            lemma_steady_branch(m, true);
        } else {
            lemma_steady_branch(m, m.condition(y - 4));
        }
    } else if z == 1 {
        lemma_steady_counter(m, rp);
        lemma_steady_wide(m, index, rp);
    } else if z == 2 {
        if p == 0 {
            lemma_steady_ld(m, Register::BC, Register::A);
            lemma_steady_ld(m, Register::A, Register::BC);
        } else if p == 1 {
            lemma_steady_ld(m, Register::DE, Register::A);
            lemma_steady_pointer(m, Register::DE);
        } else if p == 2 {
            lemma_steady_pointer(m, index);
        } else {
            lemma_steady_direct(m);
        }
    } else if z == 3 {
        lemma_steady_counter(m, rp);
    } else if z < 7 {
        lemma_steady_inc(m, r);
    } else {
        if y < 4 {
            lemma_steady_rotate_a(m);
        } else {
            lemma_steady_adjust(m);
        }
    }
}

/// The opcodes 0x40 to 0x7F are steady.
pub proof fn lemma_steady_quarter1(m: Machine, op: u8, index: Register)
    requires
        index.is_pointer(),
    ensures
        steady(m, m.quarter1(op, index)),
{
    let y = code_y(op);
    let z = code_z(op);
    lemma_steady_exchange(m);
    lemma_steady_ld(m, index.pointee(), Register::select(z, Register::HL));
    lemma_steady_ld(m, Register::select(y, Register::HL), index.pointee());
    lemma_steady_ld(m, Register::select(y, index), Register::select(z, index));
}

/// The opcodes 0x80 to 0xBF are steady.
pub proof fn lemma_steady_quarter2(m: Machine, op: u8, index: Register)
    requires
        index.is_pointer(),
    ensures
        steady(m, m.quarter2(op, index)),
{
    let r = Register::select(code_z(op), index);
    lemma_steady_add(m, r);
    lemma_steady_logic(m, r);
}

/// The opcodes 0xC0 to 0xFF are steady.
pub proof fn lemma_steady_quarter3(m: Machine, op: u8, index: Register)
    requires
        index.is_pointer(),
    ensures
        steady(m, m.quarter3(op, index)),
{
    let z = code_z(op);
    let y = code_y(op);
    let p = y / 2;
    let q = y % 2;
    let rp = Register::select_stack(p, index);
    if z == 0 {
        lemma_steady_branch(m, m.condition(y));
    } else if z == 1 {
        if q == 0 {
            lemma_steady_stack(m, rp);
        } else if p == 0 {
            lemma_steady_direct(m);
        } else if p == 1 {
            lemma_steady_exchange(m);
        } else if p == 2 {
            lemma_steady_hl(m);
            lemma_steady_call(m, m.read_pair(index), true);
        } else {
            lemma_steady_hl(m);
        }
    } else if z == 2 {
        lemma_steady_branch(m, m.condition(y));
    } else if z == 3 {
        if y < 2 {
            lemma_steady_branch(m, true);
        } else if y == 2 {
            lemma_steady_port(m, Register::A);
        } else if y == 3 {
            lemma_steady_direct(m);
        } else if y < 6 {
            lemma_steady_hl(m);
        } else if y == 6 {
            lemma_steady_branch(m, false);
        } else {
            lemma_steady_branch(m, true);
        }
    } else if z == 4 {
        lemma_steady_call(m, m.imm16(), m.condition(y));
    } else if z == 5 {
        if q == 0 {
            lemma_steady_stack(m, rp);
        } else {
            lemma_steady_call(m, m.imm16(), true);
        }
    } else if z == 6 {
        if y < 4 {
            lemma_steady_add_immediate(m);
        } else {
            lemma_steady_logic_immediate(m);
        }
    } else {
        lemma_steady_call(m, (y * 8) as u16, true);
    }
}

/// The primary plane is steady.
pub proof fn lemma_steady_primary(m: Machine, op: u8, index: Register)
    requires
        index.is_pointer(),
    ensures
        steady(m, m.primary(op, index)),
{
    if op < 0x40 {
        lemma_steady_quarter0(m, op, index);
    } else if op < 0x80 {
        lemma_steady_quarter1(m, op, index);
    } else if op < 0xC0 {
        lemma_steady_quarter2(m, op, index);
    } else {
        lemma_steady_quarter3(m, op, index);
    }
}

/// The CB plane is steady.
pub proof fn lemma_steady_plane_bits(m: Machine, op: u8, index: Register)
    requires
        index.is_pointer(),
    ensures
        steady(m, m.bits(op, index)),
{
    let y = code_y(op);
    let r = if index == Register::HL {
        Register::select(code_z(op), index)
    } else {
        index.pointee()
    };
    lemma_steady_bits(m, select_shift(y), y as u8, r);
}

/// The ED plane is steady but for `LD R,A`.
pub proof fn lemma_steady_extended(m: Machine, op: u8)
    requires
        extended_known(op),
        op != 0x4F,
    ensures
        steady(m, m.extended(op)),
{
    let z = code_z(op);
    let y = code_y(op);
    let rp = Register::select_pair(y / 2, Register::HL);
    if op == 0xA0 || op == 0xB0 {
        lemma_steady_copy(m);
    } else if op == 0xA1 || op == 0xB1 {
        lemma_steady_search(m, true);
    } else if op == 0xA9 || op == 0xB9 {
        lemma_steady_search(m, false);
    } else if z == 0 {
        lemma_steady_port(m, Register::select(y, Register::HL));
    } else if z == 2 {
        lemma_steady_wide(m, Register::HL, rp);
    } else if z == 3 {
        lemma_steady_extended_load(m, rp, 0);
    } else if z == 6 {
        lemma_steady_extended_load(m, rp, 0);
        lemma_steady_extended_load(m, rp, 1);
        lemma_steady_extended_load(m, rp, 2);
    } else {
        if y == 0 {
            lemma_steady_ld(m, Register::I, Register::A);
        } else if y == 2 {
            lemma_steady_ld(m, Register::A, Register::I);
        } else {
            lemma_steady_ld(m, Register::A, Register::R);
        }
    }
}

impl Machine {
    /// Whether the instruction with first byte `opcode` is `LD R,A`, the
    /// one instruction that stores to the refresh register.
    pub open spec fn loads_refresh(self, opcode: u16) -> bool {
        low(opcode) == 0xED && self.imm8() == 0x4F
    }

    /// The opcode fetches that the refresh register counts for an
    /// instruction with first byte `opcode`: two after a prefix byte, else one.
    pub open spec fn fetch_count(opcode: u16) -> nat {
        if is_prefix(low(opcode)) {
            2
        } else {
            1
        }
    }
}

/// Every instruction but `LD R,A` advances the refresh register by its
/// opcode fetches and nothing else, and takes between 4 and 23 T-states.
pub proof fn lemma_decode_steady(m: Machine, opcode: u16)
    requires
        m.known(opcode),
        !m.loads_refresh(opcode),
    ensures
        m.decode(opcode).reg.r == refreshed(m.reg.r, Machine::fetch_count(opcode)),
        4 <= m.decode(opcode).cycles.wrapping_sub(m.cycles) <= 23,
{
    reveal(steady);
    let op = low(opcode);
    let next = m.imm8();
    let index = Machine::index_of(op);
    if op == 0xCB {
        lemma_steady_plane_bits(m.refresh(2), next, Register::HL);
    } else if op == 0xED {
        lemma_steady_extended(m.refresh(2), next);
    } else if op == 0xDD || op == 0xFD {
        lemma_steady_plane_bits(m.refresh(2), m.read8(m.reg.pc.wrapping_add(3)), index);
        lemma_steady_primary(m.refresh(2), next, index);
    } else {
        lemma_steady_primary(m.refresh(1), op, Register::HL);
    }
}

/// Every instruction takes between 4 and 23 T-states.
pub proof fn lemma_decode_time(m: Machine, opcode: u16)
    requires
        m.known(opcode),
    ensures
        4 <= m.decode(opcode).cycles.wrapping_sub(m.cycles) <= 23,
{
    if m.loads_refresh(opcode) {
        let n = m.refresh(2);
        assert(n.extended(0x4F) == n.ld(Register::R, Register::A));
    } else {
        lemma_decode_steady(m, opcode);
    }
}

} // verus!
