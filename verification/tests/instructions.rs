use z80::cpu::Cpu;
use z80::instruction_info::Register;
use z80::interconnect::Interconnect;
use z80::memory::MemoryRW;

fn flat() -> Cpu {
    let mut cpu = Cpu::default();
    cpu.cpm_compat = true;
    cpu
}

fn load(cpu: &mut Cpu, at: u16, bytes: &[u8]) {
    for (i, b) in bytes.iter().enumerate() {
        cpu.memory.poke(at as usize + i, *b);
    }
}

#[test]
fn inc_a_wraps_to_zero() {
    let mut cpu = flat();
    cpu.reg.a = 0xFF;
    load(&mut cpu, 0, &[0x3C]);
    assert!(cpu.execute().is_ok());
    assert_eq!(cpu.reg.a, 0x00);
    assert!(cpu.flags.zf);
    assert!(cpu.flags.hf);
    assert!(!cpu.flags.nf);
    assert!(!cpu.flags.sf);
    assert!(!cpu.flags.pf);
    assert_eq!(cpu.reg.pc, 1);
    assert_eq!(cpu.cycles, 4);
}

#[test]
fn inc_sets_overflow_only_from_7f() {
    let mut cpu = flat();
    cpu.reg.b = 0x7F;
    cpu.inc(Register::B);
    assert_eq!(cpu.reg.b, 0x80);
    assert!(cpu.flags.pf);
    assert!(cpu.flags.sf);
    assert!(cpu.flags.hf);
    cpu.dec(Register::B);
    assert_eq!(cpu.reg.b, 0x7F);
    assert!(cpu.flags.pf);
    assert!(cpu.flags.nf);
    assert!(cpu.flags.hf);
}

#[test]
fn adc_immediate_takes_the_carry_into_the_half_carry() {
    let mut cpu = flat();
    cpu.reg.a = 0x6F;
    cpu.flags.set(0x11);
    load(&mut cpu, 0, &[0xCE, 0x01]);
    assert!(cpu.execute().is_ok());
    assert_eq!(cpu.reg.a, 0x71);
    assert!(cpu.flags.hf);
    assert!(!cpu.flags.cf);
    assert_eq!(cpu.reg.pc, 2);
    assert_eq!(cpu.cycles, 7);
}

#[test]
fn add_of_two_positives_overflows() {
    let mut cpu = flat();
    cpu.reg.a = 0x64;
    cpu.reg.b = 0x31;
    load(&mut cpu, 0, &[0x80]);
    assert!(cpu.execute().is_ok());
    assert_eq!(cpu.reg.a, 0x95);
    assert!(cpu.flags.pf);
    assert!(cpu.flags.sf);
    assert!(!cpu.flags.cf);
    assert_eq!(cpu.flags.get() & 0x28, 0x95 & 0x28);
}

#[test]
fn add_hl_carries_out_of_bit_7_only() {
    let mut cpu = flat();
    cpu.write_pair(Register::BC, 1);
    cpu.write_pair(Register::HL, 0x00FF);
    load(&mut cpu, 0, &[0x09]);
    assert!(cpu.execute().is_ok());
    assert_eq!(cpu.read_pair(Register::HL), 0x0100);
    assert!(!cpu.flags.hf);
    assert!(!cpu.flags.cf);
    assert_eq!(cpu.cycles, 11);
}

#[test]
fn add_hl_half_carry_and_carry() {
    let mut cpu = flat();
    cpu.write_pair(Register::HL, 0x0FFF);
    cpu.write_pair(Register::DE, 0x0001);
    cpu.add_hl(Register::DE);
    assert_eq!(cpu.read_pair(Register::HL), 0x1000);
    assert!(cpu.flags.hf);
    assert!(!cpu.flags.cf);
    cpu.write_pair(Register::HL, 0xFFFF);
    cpu.add_hl(Register::DE);
    assert_eq!(cpu.read_pair(Register::HL), 0x0000);
    assert!(cpu.flags.hf);
    assert!(cpu.flags.cf);
}

#[test]
fn adc_for_all_operands() {
    for a in 0..=255u16 {
        for b in [0u16, 1, 0x0F, 0x7F, 0x80, 0xFF] {
            for c in 0..=1u16 {
                let mut cpu = flat();
                cpu.reg.a = a as u8;
                cpu.reg.b = b as u8;
                cpu.flags.cf = c == 1;
                cpu.adc(Register::B);
                let sum = a + b + c;
                assert_eq!(cpu.reg.a, (sum % 256) as u8);
                assert_eq!(cpu.flags.cf, sum / 256 == 1);
                assert_eq!(cpu.flags.zf, cpu.reg.a == 0);
                assert_eq!(cpu.flags.hf, (a & 0xF) + (b & 0xF) + c > 0xF);
                let signed = (a as u8 as i8 as i16) + (b as u8 as i8 as i16) + c as i16;
                assert_eq!(cpu.flags.pf, signed < -128 || signed > 127);
            }
        }
    }
}

#[test]
fn sbc_for_all_operands() {
    for a in 0..=255i16 {
        for b in [0i16, 1, 0x0F, 0x7F, 0x80, 0xFF] {
            for c in 0..=1i16 {
                let mut cpu = flat();
                cpu.reg.a = a as u8;
                cpu.reg.c = b as u8;
                cpu.flags.cf = c == 1;
                cpu.sbc(Register::A, Register::C);
                let diff = a - b - c;
                assert_eq!(cpu.reg.a, diff.rem_euclid(256) as u8);
                assert_eq!(cpu.flags.cf, diff < 0);
                assert_eq!(cpu.flags.zf, cpu.reg.a == 0);
                assert_eq!(cpu.flags.hf, (a & 0xF) - (b & 0xF) - c < 0);
                assert!(cpu.flags.nf);
                let signed = (a as u8 as i8 as i16) - (b as u8 as i8 as i16) - c;
                assert_eq!(cpu.flags.pf, signed < -128 || signed > 127);
            }
        }
    }
}

#[test]
fn or_gives_the_parity_of_every_byte() {
    for b in 0..=255u8 {
        let mut cpu = flat();
        cpu.reg.a = 0;
        cpu.reg.d = b;
        cpu.ora(Register::D);
        assert_eq!(cpu.flags.pf, b.count_ones() % 2 == 0);
        assert_eq!(cpu.parity(b), b.count_ones() % 2 == 0);
        assert_eq!(cpu.reg.a, b);
        assert!(!cpu.flags.hf);
        assert!(!cpu.flags.cf);
    }
}

#[test]
fn and_sets_half_carry_and_clears_carry() {
    let mut cpu = flat();
    cpu.reg.a = 0xF3;
    cpu.reg.e = 0x3C;
    cpu.flags.cf = true;
    cpu.and(Register::E);
    assert_eq!(cpu.reg.a, 0x30);
    assert!(cpu.flags.hf);
    assert!(!cpu.flags.cf);
    assert!(cpu.flags.pf);
    assert!(cpu.flags.yf);
    assert!(!cpu.flags.xf);
}

#[test]
fn xor_of_a_with_itself_is_zero() {
    let mut cpu = flat();
    cpu.reg.a = 0x5A;
    cpu.xor(Register::A);
    assert_eq!(cpu.reg.a, 0);
    assert!(cpu.flags.zf);
    assert!(cpu.flags.pf);
    assert!(!cpu.flags.hf);
    assert_eq!(cpu.cycles, 4);
}

#[test]
fn compare_takes_the_undocumented_bits_from_the_operand() {
    let mut cpu = flat();
    cpu.reg.a = 0x10;
    cpu.reg.h = 0x28;
    cpu.cmp(Register::H);
    assert_eq!(cpu.reg.a, 0x10);
    assert!(cpu.flags.yf);
    assert!(cpu.flags.xf);
    assert!(cpu.flags.cf);
    assert!(cpu.flags.nf);
    assert!(cpu.flags.sf);
    assert!(!cpu.flags.zf);
}

#[test]
fn exchange_of_af_twice_is_the_identity() {
    let mut cpu = flat();
    cpu.reg.a = 0x12;
    cpu.reg.a_ = 0x34;
    cpu.flags.set(0xA5);
    cpu.flags.set_shadow(0x5A);
    cpu.ex_af_af();
    assert_eq!(cpu.reg.a, 0x34);
    assert_eq!(cpu.reg.a_, 0x12);
    assert_eq!(cpu.flags.get(), 0x5A);
    assert_eq!(cpu.flags.get_shadow(), 0xA5);
    cpu.ex_af_af();
    assert_eq!(cpu.reg.a, 0x12);
    assert_eq!(cpu.reg.a_, 0x34);
    assert_eq!(cpu.flags.get(), 0xA5);
    assert_eq!(cpu.flags.get_shadow(), 0x5A);
}

#[test]
fn exx_twice_is_the_identity() {
    let mut cpu = flat();
    cpu.write_pair(Register::BC, 0x0102);
    cpu.write_pair(Register::DE, 0x0304);
    cpu.write_pair(Register::HL, 0x0506);
    cpu.reg.b_ = 0x11;
    cpu.reg.l_ = 0x66;
    cpu.exx();
    assert_eq!(cpu.read_pair(Register::BC), 0x1100);
    assert_eq!(cpu.read_pair(Register::HL), 0x0066);
    assert_eq!(cpu.reg.b_, 0x01);
    cpu.exx();
    assert_eq!(cpu.read_pair(Register::BC), 0x0102);
    assert_eq!(cpu.read_pair(Register::DE), 0x0304);
    assert_eq!(cpu.read_pair(Register::HL), 0x0506);
    assert_eq!(cpu.reg.b_, 0x11);
    assert_eq!(cpu.reg.l_, 0x66);
}

#[test]
fn push_then_pop_restores_pair_and_stack_pointer() {
    let mut cpu = flat();
    cpu.reg.sp = 0x8000;
    cpu.reg.a = 0x9C;
    cpu.flags.set(0xD7);
    cpu.push(Register::AF);
    assert_eq!(cpu.reg.sp, 0x7FFE);
    assert_eq!(cpu.read8(0x7FFE), 0xD7);
    assert_eq!(cpu.read8(0x7FFF), 0x9C);
    cpu.reg.a = 0;
    cpu.flags.set(0);
    cpu.pop(Register::AF);
    assert_eq!(cpu.reg.sp, 0x8000);
    assert_eq!(cpu.reg.a, 0x9C);
    assert_eq!(cpu.flags.get(), 0xD7);
    assert_eq!(cpu.cycles, 21);
    assert_eq!(cpu.reg.pc, 2);
}

#[test]
fn push_in_mapped_mode_is_not_read_back_from_rom() {
    let mut cpu = Cpu::default();
    cpu.reg.sp = 0x1000;
    cpu.write_pair(Register::BC, 0xBEEF);
    cpu.push(Register::BC);
    cpu.write_pair(Register::BC, 0);
    cpu.pop(Register::BC);
    assert_eq!(cpu.read_pair(Register::BC), 0x0000);
    cpu.reg.sp = 0x4800;
    cpu.write_pair(Register::BC, 0xBEEF);
    cpu.push(Register::BC);
    cpu.write_pair(Register::BC, 0);
    cpu.pop(Register::BC);
    assert_eq!(cpu.read_pair(Register::BC), 0xBEEF);
    assert_eq!(cpu.reg.sp, 0x4800);
}

#[test]
fn inc_then_dec_of_a_pair_changes_nothing() {
    for rp in [Register::BC, Register::DE, Register::HL, Register::SP, Register::IX, Register::IY] {
        let mut cpu = flat();
        cpu.write_pair(rp, 0xFFFF);
        cpu.flags.set(0x5B);
        cpu.inc_rp(rp);
        assert_eq!(cpu.read_pair(rp), 0x0000);
        cpu.dec_rp(rp);
        assert_eq!(cpu.read_pair(rp), 0xFFFF);
        assert_eq!(cpu.flags.get(), 0x5B);
    }
}

#[test]
fn ldir_copies_a_block() {
    let mut cpu = flat();
    load(&mut cpu, 0x0100, &[0xED, 0xB0]);
    load(&mut cpu, 0x2000, &[1, 2, 3, 4, 5]);
    cpu.reg.pc = 0x0100;
    cpu.write_pair(Register::HL, 0x2000);
    cpu.write_pair(Register::DE, 0x3000);
    cpu.write_pair(Register::BC, 5);
    let mut steps = 0;
    while cpu.reg.pc == 0x0100 {
        assert!(cpu.execute().is_ok());
        steps += 1;
    }
    assert_eq!(steps, 5);
    assert_eq!(cpu.read_pair(Register::BC), 0);
    for i in 0..5u16 {
        assert_eq!(cpu.read8(0x3000 + i), (i + 1) as u8);
    }
    assert_eq!(cpu.read_pair(Register::HL), 0x2005);
    assert_eq!(cpu.read_pair(Register::DE), 0x3005);
    assert_eq!(cpu.reg.pc, 0x0102);
    assert_eq!(cpu.cycles, 4 * 21 + 16);
    assert!(!cpu.flags.pf);
}

#[test]
fn ldi_flags() {
    let mut cpu = flat();
    load(&mut cpu, 0x2000, &[0x08]);
    cpu.reg.a = 0x02;
    cpu.flags.set(0xFF);
    cpu.write_pair(Register::HL, 0x2000);
    cpu.write_pair(Register::DE, 0x3000);
    cpu.write_pair(Register::BC, 2);
    cpu.ldi();
    assert!(cpu.flags.pf);
    assert!(!cpu.flags.hf);
    assert!(!cpu.flags.nf);
    assert!(cpu.flags.yf);
    assert!(cpu.flags.xf);
    assert!(cpu.flags.cf);
    assert!(cpu.flags.sf);
    assert_eq!(cpu.read8(0x3000), 0x08);
}

#[test]
fn cpir_stops_on_a_match() {
    let mut cpu = flat();
    load(&mut cpu, 0x0100, &[0xED, 0xB1]);
    load(&mut cpu, 0x2000, &[9, 8, 7, 6]);
    cpu.reg.pc = 0x0100;
    cpu.reg.a = 7;
    cpu.write_pair(Register::HL, 0x2000);
    cpu.write_pair(Register::BC, 4);
    while cpu.reg.pc == 0x0100 {
        assert!(cpu.execute().is_ok());
    }
    assert!(cpu.flags.zf);
    assert!(cpu.flags.pf);
    assert_eq!(cpu.read_pair(Register::HL), 0x2003);
    assert_eq!(cpu.read_pair(Register::BC), 1);
    assert_eq!(cpu.cycles, 21 + 21 + 16);
}

#[test]
fn cpd_steps_down() {
    let mut cpu = flat();
    load(&mut cpu, 0x2000, &[0x28]);
    cpu.reg.a = 0x30;
    cpu.flags.cf = true;
    cpu.write_pair(Register::HL, 0x2000);
    cpu.write_pair(Register::BC, 1);
    cpu.cpd();
    assert_eq!(cpu.read_pair(Register::HL), 0x1FFF);
    assert_eq!(cpu.read_pair(Register::BC), 0);
    assert!(!cpu.flags.pf);
    assert!(cpu.flags.nf);
    assert!(cpu.flags.cf);
    assert!(cpu.flags.hf);
    assert!(cpu.flags.yf);
    assert!(cpu.flags.xf);
    assert_eq!(cpu.reg.a, 0x30);
}

#[test]
fn refresh_keeps_bit_7() {
    let mut cpu = flat();
    cpu.reg.r = 0xFE;
    load(&mut cpu, 0, &[0x00, 0x00, 0xCB, 0x00, 0xDD, 0x23]);
    assert!(cpu.execute().is_ok());
    assert_eq!(cpu.reg.r, 0xFF);
    assert!(cpu.execute().is_ok());
    assert_eq!(cpu.reg.r, 0x80);
    assert!(cpu.execute().is_ok());
    assert_eq!(cpu.reg.r, 0x82);
    assert!(cpu.execute().is_ok());
    assert_eq!(cpu.reg.r, 0x84);
}

#[test]
fn daa_after_addition_and_subtraction() {
    let mut cpu = flat();
    cpu.reg.a = 0x15;
    cpu.reg.b = 0x27;
    cpu.add(Register::B);
    cpu.daa();
    assert_eq!(cpu.reg.a, 0x42);
    assert!(!cpu.flags.cf);
    assert!(cpu.flags.hf);
    cpu.reg.a = 0x99;
    cpu.reg.b = 0x01;
    cpu.add(Register::B);
    cpu.daa();
    assert_eq!(cpu.reg.a, 0x00);
    assert!(cpu.flags.cf);
    assert!(cpu.flags.zf);
    cpu.reg.a = 0x42;
    cpu.reg.b = 0x15;
    cpu.sub(Register::B);
    cpu.daa();
    assert_eq!(cpu.reg.a, 0x27);
    assert!(cpu.flags.nf);
}

#[test]
fn rotates_of_the_accumulator() {
    let mut cpu = flat();
    cpu.reg.a = 0x81;
    cpu.flags.set(0xC4);
    cpu.rlca();
    assert_eq!(cpu.reg.a, 0x03);
    assert!(cpu.flags.cf);
    assert!(cpu.flags.sf && cpu.flags.zf && cpu.flags.pf);
    cpu.rrca();
    assert_eq!(cpu.reg.a, 0x81);
    assert!(cpu.flags.cf);
    cpu.rla();
    assert_eq!(cpu.reg.a, 0x03);
    assert!(cpu.flags.cf);
    cpu.flags.cf = false;
    cpu.rra();
    assert_eq!(cpu.reg.a, 0x01);
    assert!(cpu.flags.cf);
    assert!(!cpu.flags.hf && !cpu.flags.nf);
}

#[test]
fn shifts_of_the_cb_plane() {
    let expect: [(u8, u8, bool); 8] = [
        (0x00, 0x0B, true),
        (0x08, 0xC2, true),
        (0x10, 0x0A, true),
        (0x18, 0x42, true),
        (0x20, 0x0A, true),
        (0x28, 0xC2, true),
        (0x30, 0x0B, true),
        (0x38, 0x42, true),
    ];
    for (op, result, carry) in expect {
        let mut cpu = flat();
        cpu.reg.b = 0x85;
        load(&mut cpu, 0, &[0xCB, op]);
        assert!(cpu.execute().is_ok());
        assert_eq!(cpu.reg.b, result);
        assert_eq!(cpu.flags.cf, carry);
        assert_eq!(cpu.flags.pf, result.count_ones() % 2 == 0);
        assert_eq!(cpu.flags.sf, result & 0x80 != 0);
        assert_eq!(cpu.cycles, 8);
        assert_eq!(cpu.reg.pc, 2);
    }
}

#[test]
fn bit_set_and_reset() {
    let mut cpu = flat();
    cpu.write_pair(Register::HL, 0x2000);
    load(&mut cpu, 0, &[0xCB, 0xFE, 0xCB, 0x7E, 0xCB, 0xBE, 0xCB, 0x7E, 0xCB, 0xC7, 0xCB, 0x87]);
    assert!(cpu.execute().is_ok());
    assert_eq!(cpu.read8(0x2000), 0x80);
    assert_eq!(cpu.cycles, 15);
    assert!(cpu.execute().is_ok());
    assert!(!cpu.flags.zf && cpu.flags.sf && cpu.flags.hf && !cpu.flags.pf);
    assert_eq!(cpu.cycles, 27);
    assert!(cpu.execute().is_ok());
    assert_eq!(cpu.read8(0x2000), 0x00);
    assert!(cpu.execute().is_ok());
    assert!(cpu.flags.zf && !cpu.flags.sf && cpu.flags.pf);
    cpu.reg.a = 0xF0;
    assert!(cpu.execute().is_ok());
    assert_eq!(cpu.reg.a, 0xF1);
    assert!(cpu.execute().is_ok());
    assert_eq!(cpu.reg.a, 0xF0);
    assert_eq!(cpu.reg.pc, 12);
}

#[test]
fn indexed_operands() {
    let mut cpu = flat();
    cpu.reg.ix = 0x2010;
    cpu.reg.iy = 0x3000;
    load(&mut cpu, 0x200E, &[0x44]);
    load(&mut cpu, 0x3005, &[0x05]);
    load(
        &mut cpu,
        0,
        &[
            0xDD, 0x7E, 0xFE, 0xFD, 0x86, 0x05, 0xDD, 0x36, 0x01, 0x77, 0xFD, 0x34, 0x05, 0xDD, 0xCB,
            0x01, 0x06, 0xFD, 0x66, 0x05, 0xDD, 0x84,
        ],
    );
    assert!(cpu.execute().is_ok());
    assert_eq!(cpu.reg.a, 0x44);
    assert_eq!(cpu.cycles, 19);
    assert_eq!(cpu.reg.pc, 3);
    assert!(cpu.execute().is_ok());
    assert_eq!(cpu.reg.a, 0x49);
    assert_eq!(cpu.cycles, 38);
    assert_eq!(cpu.reg.pc, 6);
    assert!(cpu.execute().is_ok());
    assert_eq!(cpu.read8(0x2011), 0x77);
    assert_eq!(cpu.cycles, 57);
    assert_eq!(cpu.reg.pc, 10);
    assert!(cpu.execute().is_ok());
    assert_eq!(cpu.read8(0x3005), 0x06);
    assert_eq!(cpu.cycles, 80);
    assert_eq!(cpu.reg.pc, 13);
    assert!(cpu.execute().is_ok());
    assert_eq!(cpu.read8(0x2011), 0xEE);
    assert_eq!(cpu.cycles, 103);
    assert_eq!(cpu.reg.pc, 17);
    assert!(cpu.execute().is_ok());
    assert_eq!(cpu.reg.h, 0x06);
    assert_eq!(cpu.reg.iy, 0x3000);
    assert!(cpu.execute().is_ok());
    assert_eq!(cpu.reg.a, 0x49 + 0x20);
    assert_eq!(cpu.cycles, 103 + 19 + 8);
    assert_eq!(cpu.reg.pc, 22);
}

#[test]
fn jumps_calls_and_returns() {
    let mut cpu = flat();
    cpu.reg.sp = 0xF000;
    load(&mut cpu, 0x0000, &[0xCD, 0x00, 0x10]);
    load(&mut cpu, 0x0003, &[0x18, 0xFE]);
    load(&mut cpu, 0x1000, &[0x06, 0x03, 0x10, 0xFE, 0xC8, 0xC0, 0xC9]);
    assert!(cpu.execute().is_ok());
    assert_eq!(cpu.reg.pc, 0x1000);
    assert_eq!(cpu.reg.sp, 0xEFFE);
    assert_eq!(cpu.read16(0xEFFE), 0x0003);
    assert_eq!(cpu.cycles, 17);
    assert!(cpu.execute().is_ok());
    assert!(cpu.execute().is_ok());
    assert_eq!(cpu.reg.pc, 0x1002);
    assert_eq!(cpu.cycles, 17 + 7 + 13);
    assert!(cpu.execute().is_ok());
    assert!(cpu.execute().is_ok());
    assert_eq!(cpu.reg.pc, 0x1004);
    assert_eq!(cpu.reg.b, 0);
    assert_eq!(cpu.cycles, 17 + 7 + 13 + 13 + 8);
    cpu.flags.zf = false;
    assert!(cpu.execute().is_ok());
    assert_eq!(cpu.reg.pc, 0x1005);
    assert_eq!(cpu.cycles, 58 + 5);
    assert!(cpu.execute().is_ok());
    assert_eq!(cpu.reg.pc, 0x0003);
    assert_eq!(cpu.reg.sp, 0xF000);
    assert_eq!(cpu.cycles, 63 + 11);
    assert!(cpu.execute().is_ok());
    assert_eq!(cpu.reg.pc, 0x0003);
    assert_eq!(cpu.cycles, 74 + 12);
}

#[test]
fn restart_pushes_the_next_address() {
    let mut cpu = flat();
    cpu.reg.sp = 0x9000;
    cpu.reg.pc = 0x1234;
    load(&mut cpu, 0x1234, &[0xF7]);
    assert!(cpu.execute().is_ok());
    assert_eq!(cpu.reg.pc, 0x0030);
    assert_eq!(cpu.read16(0x8FFE), 0x1235);
    assert_eq!(cpu.cycles, 11);
}

#[test]
fn undefined_opcodes_trap_and_change_nothing() {
    let mut cpu = flat();
    cpu.reg.pc = 0x0200;
    cpu.reg.r = 5;
    load(&mut cpu, 0x0200, &[0xED, 0x00, 0x42]);
    let trap = cpu.execute().unwrap_err();
    assert_eq!(trap.pc, 0x0200);
    assert_eq!(trap.opcode, 0xED);
    assert_eq!(trap.next, 0x00);
    assert_eq!(trap.third, 0x42);
    assert_eq!(cpu.reg.pc, 0x0200);
    assert_eq!(cpu.reg.r, 5);
    assert_eq!(cpu.cycles, 0);
    assert_eq!(cpu.opcode, 0xED);
    load(&mut cpu, 0x0200, &[0xDD, 0x00]);
    assert!(cpu.execute().is_err());
    load(&mut cpu, 0x0200, &[0xFD, 0xEB]);
    assert!(cpu.execute().is_err());
    assert!(cpu.decode(0x100).is_err());
    load(&mut cpu, 0x0200, &[0xDD, 0xE9]);
    cpu.reg.ix = 0x4321;
    assert!(cpu.execute().is_ok());
    assert_eq!(cpu.reg.pc, 0x4321);
    assert_eq!(cpu.cycles, 8);
}

#[test]
fn memory_map() {
    let mut cpu = Cpu::default();
    cpu.memory.poke(0x0010, 0xAA);
    cpu.memory.poke(0x6000, 0xBB);
    assert_eq!(cpu.read8(0x0010), 0xAA);
    cpu.write8(0x0010, 0x11);
    assert_eq!(cpu.read8(0x0010), 0xAA);
    assert_eq!(cpu.memory.peek_ram(0x0010), 0x11);
    cpu.write8(0x4010, 0x22);
    assert_eq!(cpu.read8(0x4010), 0x22);
    assert_eq!(cpu.memory.peek_ram(0x0010), 0x22);
    assert_eq!(cpu.read8(0x6000), 0xBB);
    cpu.write8(0x6000, 0x33);
    assert_eq!(cpu.read8(0x6000), 0xBB);
    assert_eq!(cpu.memory.peek_ram(0x6000), 0x33);
    assert_eq!(cpu.read8(0x5000), 0);
    assert!(!cpu.int_pending);
    cpu.write8(0x5000, 0x01);
    assert!(cpu.int_pending);
    cpu.int.int = true;
    assert_eq!(cpu.read8(0x5000), 1);
    cpu.write16(0x4FFF, 0xABCD);
    assert_eq!(cpu.read8(0x4FFF), 0xCD);
    assert!(cpu.int_pending);
    cpu.cpm_compat = true;
    cpu.write16(0xFFFF, 0x1234);
    assert_eq!(cpu.read8(0xFFFF), 0x34);
    assert_eq!(cpu.read8(0x0000), 0x12);
    assert_eq!(cpu.read16(0xFFFF), 0x1234);
    assert_eq!(cpu.memory.peek(0), 0x12);
}

#[test]
fn reset_values() {
    let mut cpu = flat();
    cpu.reg.b = 7;
    cpu.reg.b_ = 9;
    cpu.reg.pc = 0x1234;
    cpu.int.iff1 = true;
    cpu.int.mode = 2;
    cpu.memory.poke(5, 0x55);
    cpu.cycles = 99;
    cpu.reset();
    assert_eq!(cpu.reg.a, 0xFF);
    assert_eq!(cpu.flags.get(), 0xFF);
    assert_eq!(cpu.reg.sp, 0xFFFF);
    assert_eq!(cpu.reg.b, 0);
    assert_eq!(cpu.reg.pc, 0);
    assert_eq!(cpu.reg.b_, 9);
    assert_eq!(cpu.int.mode, 0);
    assert!(!cpu.int.iff1 && !cpu.int.iff2);
    assert_eq!(cpu.memory.peek(5), 0x55);
    assert_eq!(cpu.cycles, 99);
    assert!(cpu.cpm_compat);
}

#[test]
fn halt_waits_for_an_interrupt() {
    let mut cpu = flat();
    cpu.reg.sp = 0x8000;
    load(&mut cpu, 0x0100, &[0xFB, 0x76, 0x00]);
    cpu.reg.pc = 0x0100;
    cpu.int.mode = 1;
    assert!(cpu.execute().is_ok());
    assert!(cpu.int.iff1 && cpu.int.iff2);
    assert!(cpu.poll_interrupt().is_ok());
    assert_eq!(cpu.reg.pc, 0x0101);
    assert!(cpu.execute().is_ok());
    assert!(cpu.int.halt);
    assert_eq!(cpu.reg.pc, 0x0101);
    assert_eq!(cpu.cycles, 8);
    assert!(cpu.execute().is_ok());
    assert_eq!(cpu.reg.pc, 0x0101);
    assert_eq!(cpu.cycles, 12);
    cpu.int.irq = true;
    assert!(cpu.poll_interrupt().is_ok());
    assert!(!cpu.int.halt);
    assert!(!cpu.int.iff1 && !cpu.int.iff2);
    assert_eq!(cpu.reg.pc, 0x0038);
    assert_eq!(cpu.read16(0x7FFE), 0x0103);
    assert_eq!(cpu.cycles, 12 + 13 + 11);
}

#[test]
fn non_maskable_interrupt() {
    let mut cpu = flat();
    cpu.reg.sp = 0x8000;
    cpu.reg.pc = 0x0300;
    cpu.reg.r = 0x7F;
    cpu.int.iff1 = true;
    cpu.int.iff2 = true;
    cpu.int.nmi_pending = true;
    assert!(cpu.poll_interrupt().is_ok());
    assert!(!cpu.int.nmi_pending);
    assert!(!cpu.int.iff1);
    assert!(cpu.int.iff2);
    assert_eq!(cpu.reg.pc, 0x0066);
    assert_eq!(cpu.read16(0x7FFE), 0x0300);
    assert_eq!(cpu.cycles, 11);
    assert_eq!(cpu.reg.r, 0x00);
}

#[test]
fn interrupt_modes_0_and_2() {
    let mut cpu = flat();
    cpu.reg.sp = 0x8000;
    cpu.reg.pc = 0x0300;
    cpu.int.iff1 = true;
    cpu.int.irq = true;
    cpu.int.mode = 0;
    cpu.int.vector = 0xCF;
    assert!(cpu.poll_interrupt().is_ok());
    assert_eq!(cpu.reg.pc, 0x0008);
    assert_eq!(cpu.cycles, 22);
    assert_eq!(cpu.read16(0x7FFE), 0x0301);

    let mut cpu = flat();
    cpu.reg.pc = 0x0300;
    cpu.int.iff1 = true;
    cpu.int.irq = true;
    cpu.int.mode = 0;
    assert!(cpu.poll_interrupt().is_ok());
    assert_eq!(cpu.reg.pc, 0x0300);
    assert_eq!(cpu.cycles, 0);
    assert!(!cpu.int.iff1);

    let mut cpu = flat();
    cpu.reg.pc = 0x0300;
    cpu.int.iff1 = true;
    cpu.int.irq = true;
    cpu.int.mode = 0;
    cpu.int.vector = 0xED;
    load(&mut cpu, 0x0301, &[0x00]);
    let trap = cpu.poll_interrupt().unwrap_err();
    assert_eq!(trap.opcode, 0xED);
    assert_eq!(trap.pc, 0x0300);
    assert_eq!(cpu.cycles, 11);

    let mut cpu = flat();
    cpu.reg.sp = 0x8000;
    cpu.reg.pc = 0x0300;
    cpu.reg.i = 0x40;
    cpu.int.iff1 = true;
    cpu.int.irq = true;
    cpu.int.int = true;
    cpu.int.mode = 2;
    cpu.io.port = 0;
    cpu.io.value = 0x20;
    assert!(cpu.poll_interrupt().is_ok());
    assert_eq!(cpu.reg.pc, 0x4020);
    assert_eq!(cpu.int.vector, 0x20);
    assert!(!cpu.int.irq && !cpu.int.int);
    assert_eq!(cpu.cycles, 19);
    assert_eq!(cpu.read16(0x7FFE), 0x0303);

    let mut cpu = flat();
    cpu.int.irq = true;
    assert!(cpu.poll_interrupt().is_ok());
    assert_eq!(cpu.cycles, 0);
    assert!(cpu.int.irq);
}

#[test]
fn port_latch() {
    let mut cpu = flat();
    cpu.reg.a = 0x5A;
    load(&mut cpu, 0, &[0xD3, 0x07, 0xDB, 0x09, 0xED, 0x50]);
    assert!(cpu.execute().is_ok());
    assert_eq!(cpu.io.port, 0x07);
    assert_eq!(cpu.io.value, 0x5A);
    assert!(!cpu.io.input);
    assert_eq!(cpu.cycles, 11);
    cpu.io.value = 0x81;
    assert!(cpu.execute().is_ok());
    assert_eq!(cpu.io.port, 0x09);
    assert!(cpu.io.input);
    assert_eq!(cpu.reg.a, 0x81);
    cpu.reg.c = 0x33;
    assert!(cpu.execute().is_ok());
    assert_eq!(cpu.reg.d, 0x81);
    assert_eq!(cpu.io.port, 0x33);
    assert!(cpu.flags.sf && cpu.flags.pf && !cpu.flags.zf);
    assert_eq!(cpu.cycles, 11 + 11 + 12);
}

#[test]
fn sixteen_bit_carry_arithmetic() {
    let mut cpu = flat();
    cpu.write_pair(Register::HL, 0x7FFF);
    cpu.write_pair(Register::BC, 0x0000);
    cpu.flags.cf = true;
    cpu.adc_hl(Register::BC);
    assert_eq!(cpu.read_pair(Register::HL), 0x8000);
    assert!(cpu.flags.pf && cpu.flags.sf && cpu.flags.hf && !cpu.flags.cf && !cpu.flags.zf);
    cpu.write_pair(Register::HL, 0x0000);
    cpu.write_pair(Register::DE, 0x0000);
    cpu.flags.cf = true;
    cpu.sbc_hl(Register::DE);
    assert_eq!(cpu.read_pair(Register::HL), 0xFFFF);
    assert!(cpu.flags.cf && cpu.flags.sf && cpu.flags.hf && cpu.flags.nf && !cpu.flags.pf);
    assert!(cpu.flags.yf && cpu.flags.xf);
    assert_eq!(cpu.cycles, 30);
    assert_eq!(cpu.reg.pc, 4);
}

#[test]
fn loads_through_pairs_and_immediates() {
    let mut cpu = flat();
    load(
        &mut cpu,
        0,
        &[
            0x21, 0x00, 0x20, 0x36, 0x99, 0x7E, 0x01, 0x00, 0x30, 0x02, 0x0A, 0x32, 0x34, 0x12, 0x3A,
            0x34, 0x12, 0x22, 0x00, 0x40, 0x2A, 0x00, 0x20, 0xED, 0x43, 0x10, 0x40, 0xED, 0x5B, 0x10,
            0x40, 0xF9, 0xEB, 0xE3,
        ],
    );
    assert!(cpu.execute().is_ok());
    assert_eq!(cpu.read_pair(Register::HL), 0x2000);
    assert!(cpu.execute().is_ok());
    assert_eq!(cpu.read8(0x2000), 0x99);
    assert_eq!(cpu.cycles, 20);
    assert!(cpu.execute().is_ok());
    assert_eq!(cpu.reg.a, 0x99);
    assert_eq!(cpu.cycles, 27);
    assert!(cpu.execute().is_ok());
    assert!(cpu.execute().is_ok());
    assert_eq!(cpu.read8(0x3000), 0x99);
    cpu.reg.a = 0;
    assert!(cpu.execute().is_ok());
    assert_eq!(cpu.reg.a, 0x99);
    assert_eq!(cpu.cycles, 27 + 10 + 7 + 7);
    assert!(cpu.execute().is_ok());
    assert_eq!(cpu.read8(0x1234), 0x99);
    cpu.reg.a = 1;
    assert!(cpu.execute().is_ok());
    assert_eq!(cpu.reg.a, 0x99);
    assert_eq!(cpu.cycles, 51 + 26);
    assert!(cpu.execute().is_ok());
    assert_eq!(cpu.read16(0x4000), 0x2000);
    assert!(cpu.execute().is_ok());
    assert_eq!(cpu.read_pair(Register::HL), 0x0099);
    assert_eq!(cpu.cycles, 77 + 32);
    assert!(cpu.execute().is_ok());
    assert_eq!(cpu.read16(0x4010), 0x3000);
    assert!(cpu.execute().is_ok());
    assert_eq!(cpu.read_pair(Register::DE), 0x3000);
    assert_eq!(cpu.cycles, 109 + 40);
    assert!(cpu.execute().is_ok());
    assert_eq!(cpu.reg.sp, 0x0099);
    assert!(cpu.execute().is_ok());
    assert_eq!(cpu.read_pair(Register::HL), 0x3000);
    assert_eq!(cpu.read_pair(Register::DE), 0x0099);
    load(&mut cpu, 0x0099, &[0x78, 0x56]);
    assert!(cpu.execute().is_ok());
    assert_eq!(cpu.read_pair(Register::HL), 0x5678);
    assert_eq!(cpu.read16(0x0099), 0x3000);
    assert_eq!(cpu.cycles, 149 + 6 + 4 + 19);
}

#[test]
fn load_of_the_refresh_register_copies_iff2() {
    let mut cpu = flat();
    cpu.int.iff2 = true;
    cpu.reg.r = 0x80;
    cpu.flags.set(0x13);
    load(&mut cpu, 0, &[0xED, 0x5F, 0xED, 0x4F, 0xED, 0x5E]);
    assert!(cpu.execute().is_ok());
    assert_eq!(cpu.reg.a, 0x82);
    assert!(cpu.flags.pf && cpu.flags.sf && !cpu.flags.zf && !cpu.flags.hf && !cpu.flags.nf);
    assert!(cpu.flags.cf);
    assert_eq!(cpu.cycles, 9);
    cpu.reg.a = 0x11;
    assert!(cpu.execute().is_ok());
    assert_eq!(cpu.reg.r, 0x11);
    assert!(cpu.execute().is_ok());
    assert_eq!(cpu.int.mode, 2);
    assert_eq!(cpu.cycles, 9 + 9 + 8);
}

#[test]
fn complement_and_carry_flags() {
    let mut cpu = flat();
    cpu.reg.a = 0x0F;
    cpu.flags.set(0x01);
    cpu.cpl();
    assert_eq!(cpu.reg.a, 0xF0);
    assert!(cpu.flags.hf && cpu.flags.nf && cpu.flags.yf && !cpu.flags.xf && cpu.flags.cf);
    cpu.ccf();
    assert!(!cpu.flags.cf && cpu.flags.hf && !cpu.flags.nf);
    cpu.scf();
    assert!(cpu.flags.cf && !cpu.flags.hf && !cpu.flags.nf);
}

#[test]
fn a_program_runs_to_the_sentinel() {
    // Sums 1..=10 into A, stores it, then jumps to the OUT at address 0.
    let mut cpu = flat();
    cpu.reset();
    load(&mut cpu, 0x0000, &[0xD3, 0x00]);
    load(
        &mut cpu,
        0x0100,
        &[0x06, 0x0A, 0xAF, 0x80, 0x10, 0xFD, 0x32, 0x00, 0x20, 0xC3, 0x00, 0x00],
    );
    cpu.reg.pc = 0x0100;
    let mut steps = 0;
    loop {
        assert!(cpu.execute().is_ok());
        steps += 1;
        if cpu.opcode == 0xD3 {
            break;
        }
        assert!(steps < 100);
    }
    assert_eq!(cpu.read8(0x2000), 55);
    assert_eq!(cpu.cycles, 7 + 4 + 10 * 4 + 9 * 13 + 8 + 13 + 10 + 11);
    assert_eq!(cpu.io.value, 55);
    assert_eq!(cpu.io.port, 0);
}

#[test]
fn a_frame_runs_over_its_budget_and_polls_once() {
    let mut i = Interconnect::default();
    i.cpu.cpm_compat = true;
    // JR -2: twelve T-states a step, for ever.
    i.cpu.memory.poke(0, 0x18);
    i.cpu.memory.poke(1, 0xFE);
    let n = i.execute_cpu().unwrap();
    assert_eq!(n, 1);
    assert_eq!(i.frame_count, 1);
    assert_eq!(i.cpu.cycles, 25_608);
    assert_eq!(i.cpu.reg.pc, 0);
    i.cpu.int.nmi_pending = true;
    i.cpu.reg.sp = 0x8000;
    assert_eq!(i.execute_cpu().unwrap(), 2);
    assert_eq!(i.cpu.reg.pc, 0x0066);
    i.cpu.memory.poke(0x0066, 0xED);
    let trap = i.execute_cpu().unwrap_err();
    assert_eq!(trap.pc, 0x0066);
    assert_eq!(i.frame_count, 2);
}

#[test]
fn images_are_laid_over_memory() {
    let mut cpu = flat();
    cpu.memory.poke(0x00FF, 0x11);
    cpu.memory.poke(0x0103, 0x22);
    cpu.memory.load_tests(&[0xAA, 0xBB, 0xCC]);
    assert_eq!(cpu.memory.peek(0x00FF), 0x11);
    assert_eq!(cpu.memory.peek(0x0100), 0xAA);
    assert_eq!(cpu.memory.peek(0x0102), 0xCC);
    assert_eq!(cpu.memory.peek(0x0103), 0x22);
    cpu.memory.load_bin(&[0x01, 0x02]);
    assert_eq!(cpu.memory.peek(0), 0x01);
    assert_eq!(cpu.memory.peek(1), 0x02);
    assert_eq!(cpu.memory.peek(2), 0x00);
    let mut i = Interconnect::default();
    i.cpu.cpm_compat = true;
    i.cpu.memory.load_bin(&[0x3E, 0x07, 0xED, 0x00]);
    assert!(i.run_tests().is_ok());
    assert_eq!(i.cpu.reg.a, 7);
    assert!(i.run_tests().is_err());
    assert_eq!(i.frame_count, 0);
}

#[test]
fn rotate_of_an_indexed_byte_leaves_the_named_register() {
    let mut cpu = flat();
    cpu.reg.iy = 0x3000;
    cpu.reg.b = 0x55;
    load(&mut cpu, 0x3002, &[0x81]);
    load(&mut cpu, 0, &[0xFD, 0xCB, 0x02, 0x00]);
    cpu.rlc_ex(Register::IyIm, Register::B);
    assert_eq!(cpu.read8(0x3002), 0x03);
    assert_eq!(cpu.reg.b, 0x55);
    assert!(cpu.flags.cf);
    assert_eq!(cpu.cycles, 23);
    assert_eq!(cpu.reg.pc, 4);
}
