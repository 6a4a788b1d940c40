//! The 8-bit arithmetic, logic, compare, increment and decrement instructions.

use vstd::prelude::*;
use crate::cpu::Cpu;
use crate::instruction_info::Register;
use crate::machine::Machine;
use crate::memory::MemoryRW;

verus! {

impl Machine {
    /// The byte that follows the opcode byte at the program counter.
    pub open spec fn imm8(self) -> u8 {
        self.read8(self.reg.pc.wrapping_add(1))
    }

    /// The little-endian word that follows the opcode byte at the program counter.
    pub open spec fn imm16(self) -> u16 {
        self.read16(self.reg.pc.wrapping_add(1))
    }

    /// `ADD A,r`: A + operand.
    pub open spec fn add(self, reg: Register) -> Machine {
        self.add_a(self.read_reg(reg), false).advance(reg.operand_len(), reg.alu_cycles())
    }

    /// `ADC A,r`: A + operand + carry flag.
    pub open spec fn adc(self, reg: Register) -> Machine {
        self.add_a(self.read_reg(reg), self.flags.cf).advance(
            reg.operand_len(),
            reg.alu_cycles(),
        )
    }

    /// `ADD A,n`: A + immediate byte.
    pub open spec fn adi(self) -> Machine {
        self.add_a(self.imm8(), false).advance(2, 7)
    }

    /// `ADC A,n`: A + immediate byte + carry flag.
    pub open spec fn adc_im(self) -> Machine {
        self.add_a(self.imm8(), self.flags.cf).advance(2, 7)
    }

    /// `SUB r`: A - operand.
    pub open spec fn sub(self, src: Register) -> Machine {
        self.sub_a(self.read_reg(src), false).advance(src.operand_len(), src.alu_cycles())
    }

    /// `SBC A,r`: A - operand - carry flag.
    pub open spec fn sbc(self, src: Register) -> Machine {
        self.sub_a(self.read_reg(src), self.flags.cf).advance(
            src.operand_len(),
            src.alu_cycles(),
        )
    }

    /// `SUB n`: A - immediate byte.
    pub open spec fn sui(self) -> Machine {
        self.sub_a(self.imm8(), false).advance(2, 7)
    }

    /// `SBC A,n`: A - immediate byte - carry flag.
    pub open spec fn sbi(self) -> Machine {
        self.sub_a(self.imm8(), self.flags.cf).advance(2, 7)
    }

    /// `AND r`: A and operand, bit by bit; H is set.
    pub open spec fn and(self, reg: Register) -> Machine {
        self.logic_a(self.reg.a & self.read_reg(reg), true).advance(
            reg.operand_len(),
            reg.alu_cycles(),
        )
    }

    /// `AND n`.
    pub open spec fn ani(self) -> Machine {
        self.logic_a(self.reg.a & self.imm8(), true).advance(2, 7)
    }

    /// `XOR r`: A exclusive-or operand, bit by bit; H is cleared.
    pub open spec fn xor(self, reg: Register) -> Machine {
        self.logic_a(self.reg.a ^ self.read_reg(reg), false).advance(
            reg.operand_len(),
            reg.alu_cycles(),
        )
    }

    /// `XOR n`.
    pub open spec fn xri(self) -> Machine {
        self.logic_a(self.reg.a ^ self.imm8(), false).advance(2, 7)
    }

    /// `OR r`: A or operand, bit by bit; H is cleared.
    pub open spec fn ora(self, reg: Register) -> Machine {
        self.logic_a(self.reg.a | self.read_reg(reg), false).advance(
            reg.operand_len(),
            reg.alu_cycles(),
        )
    }

    /// `OR n`.
    pub open spec fn ori(self) -> Machine {
        self.logic_a(self.reg.a | self.imm8(), false).advance(2, 7)
    }

    /// `CP r`: the flags of A - operand, Y and X from the operand; A stays.
    pub open spec fn cmp(self, reg: Register) -> Machine {
        self.compare_a(self.read_reg(reg)).advance(reg.operand_len(), reg.alu_cycles())
    }

    /// `CP n`.
    pub open spec fn cp_im(self) -> Machine {
        self.compare_a(self.imm8()).advance(2, 7)
    }

    /// `INC r`: the operand plus one, modulo 256; the carry flag stays.
    pub open spec fn inc(self, reg: Register) -> Machine {
        let v = self.read_reg(reg);
        (Machine { flags: self.inc_flags(v), ..self }).write_reg(
            reg,
            v.wrapping_add(1),
        ).advance(reg.operand_len(), reg.inc_cycles())
    }

    /// `DEC r`: the operand minus one, modulo 256; the carry flag stays.
    pub open spec fn dec(self, reg: Register) -> Machine {
        let v = self.read_reg(reg);
        (Machine { flags: self.dec_flags(v), ..self }).write_reg(
            reg,
            v.wrapping_sub(1),
        ).advance(reg.operand_len(), reg.inc_cycles())
    }
}

impl Cpu {
    /// The byte after the opcode byte.
    pub fn imm8(&self) -> (v: u8)
        ensures
            v == self@.imm8(),
    {
        self.read8(self.reg.pc.wrapping_add(1))
    }

    /// The word after the opcode byte.
    pub fn imm16(&self) -> (v: u16)
        ensures
            v == self@.imm16(),
    {
        self.read16(self.reg.pc.wrapping_add(1))
    }

    /// `ADD A,r`: adds the operand to the accumulator.
    pub fn add(&mut self, reg: Register)
        requires
            reg.is_operand(),
        ensures
            final(self)@ =~= old(self)@.add(reg),
    {
        let value = self.read_reg(reg);
        self.add_a(value, false);
        self.advance(reg.length(), reg.alu_time());
    }

    /// `ADC A,r`: adds the operand and the carry flag to the accumulator.
    pub fn adc(&mut self, reg: Register)
        requires
            reg.is_operand(),
        ensures
            final(self)@ =~= old(self)@.adc(reg),
    {
        let value = self.read_reg(reg);
        let carry = self.flags.cf;
        self.add_a(value, carry);
        self.advance(reg.length(), reg.alu_time());
    }

    /// `ADD A,n`: adds the immediate byte to the accumulator.
    pub fn adi(&mut self)
        ensures
            final(self)@ =~= old(self)@.adi(),
    {
        let value = self.imm8();
        self.add_a(value, false);
        self.advance(2, 7);
    }

    /// `ADC A,n`: adds the immediate byte and the carry flag to the accumulator.
    pub fn adc_im(&mut self)
        ensures
            final(self)@ =~= old(self)@.adc_im(),
    {
        let value = self.imm8();
        let carry = self.flags.cf;
        self.add_a(value, carry);
        self.advance(2, 7);
    }

    /// `SUB r`: subtracts the operand from the accumulator.
    pub fn sub(&mut self, src: Register)
        requires
            src.is_operand(),
        ensures
            final(self)@ =~= old(self)@.sub(src),
    {
        let value = self.read_reg(src);
        self.sub_a(value, false);
        self.advance(src.length(), src.alu_time());
    }

    /// `SBC A,src`. The destination is always the accumulator.
    pub fn sbc(&mut self, dst: Register, src: Register)
        requires
            dst == Register::A,
            src.is_operand(),
        ensures
            final(self)@ =~= old(self)@.sbc(src),
    {
        let value = self.read_reg(src);
        let carry = self.flags.cf;
        self.sub_a(value, carry);
        self.advance(src.length(), src.alu_time());
    }

    /// `SUB n`: subtracts the immediate byte from the accumulator.
    pub fn sui(&mut self)
        ensures
            final(self)@ =~= old(self)@.sui(),
    {
        let value = self.imm8();
        self.sub_a(value, false);
        self.advance(2, 7);
    }

    /// `SBC A,n`: subtracts the immediate byte and the carry flag from the accumulator.
    pub fn sbi(&mut self)
        ensures
            final(self)@ =~= old(self)@.sbi(),
    {
        let value = self.imm8();
        let carry = self.flags.cf;
        self.sub_a(value, carry);
        self.advance(2, 7);
    }

    /// `AND r`.
    pub fn and(&mut self, reg: Register)
        requires
            reg.is_operand(),
        ensures
            final(self)@ =~= old(self)@.and(reg),
    {
        let value = self.read_reg(reg);
        self.logic_a(self.reg.a & value, true);
        self.advance(reg.length(), reg.alu_time());
    }

    /// `AND n`.
    pub fn ani(&mut self)
        ensures
            final(self)@ =~= old(self)@.ani(),
    {
        let value = self.imm8();
        self.logic_a(self.reg.a & value, true);
        self.advance(2, 7);
    }

    /// `XOR r`.
    pub fn xor(&mut self, reg: Register)
        requires
            reg.is_operand(),
        ensures
            final(self)@ =~= old(self)@.xor(reg),
    {
        let value = self.read_reg(reg);
        self.logic_a(self.reg.a ^ value, false);
        self.advance(reg.length(), reg.alu_time());
    }

    /// `XOR n`.
    pub fn xri(&mut self)
        ensures
            final(self)@ =~= old(self)@.xri(),
    {
        let value = self.imm8();
        self.logic_a(self.reg.a ^ value, false);
        self.advance(2, 7);
    }

    /// `OR r`.
    pub fn ora(&mut self, reg: Register)
        requires
            reg.is_operand(),
        ensures
            final(self)@ =~= old(self)@.ora(reg),
    {
        let value = self.read_reg(reg);
        self.logic_a(self.reg.a | value, false);
        self.advance(reg.length(), reg.alu_time());
    }

    /// `OR n`.
    pub fn ori(&mut self)
        ensures
            final(self)@ =~= old(self)@.ori(),
    {
        let value = self.imm8();
        self.logic_a(self.reg.a | value, false);
        self.advance(2, 7);
    }

    /// `CP r`: compares the accumulator with the operand.
    pub fn cmp(&mut self, reg: Register)
        requires
            reg.is_operand(),
        ensures
            final(self)@ =~= old(self)@.cmp(reg),
    {
        let value = self.read_reg(reg);
        self.compare_a(value);
        self.advance(reg.length(), reg.alu_time());
    }

    /// `CP n`: compares the accumulator with the immediate byte.
    pub fn cp_im(&mut self)
        ensures
            final(self)@ =~= old(self)@.cp_im(),
    {
        let value = self.imm8();
        self.compare_a(value);
        self.advance(2, 7);
    }

    /// `INC r`.
    pub fn inc(&mut self, reg: Register)
        requires
            reg.is_operand(),
        ensures
            final(self)@ =~= old(self)@.inc(reg),
    {
        let value = self.read_reg(reg);
        let result = self.inc_flags(value);
        proof {
            crate::bits::lemma_wrap8(0, value, 1);
        }
        self.write_reg(reg, result);
        self.advance(reg.length(), reg.inc_time());
    }

    /// `DEC r`.
    pub fn dec(&mut self, reg: Register)
        requires
            reg.is_operand(),
        ensures
            final(self)@ =~= old(self)@.dec(reg),
    {
        let value = self.read_reg(reg);
        let result = self.dec_flags(value);
        proof {
            crate::bits::lemma_wrap8(0, value, 1);
        }
        self.write_reg(reg, result);
        self.advance(reg.length(), reg.inc_time());
    }
}

} // verus!
