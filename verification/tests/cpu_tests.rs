use z80::instruction_info::Register;
use z80::instruction_info::Register::{BC, HL, IX, IY, R, SP};
use z80::interconnect::Interconnect;

#[test]
fn test_overflow_flag_add() {
    let mut i = Interconnect::default();
    i.cpu.reg.a = 0b0110_0100;
    i.cpu.reg.b = 0b0011_0001;
    i.cpu.add(Register::B);
    assert_eq!(i.cpu.flags.pf, true);
}

#[test]
fn test_overflow_flag_sub() {
    let mut i = Interconnect::default();
    i.cpu.reg.a = 0b0111_1110;
    i.cpu.reg.b = 0b1100_0000;
    i.cpu.sub(Register::B);
    assert_eq!(i.cpu.flags.pf, true);
}

#[test]
fn cpu_tests_test_hf_flag() {
    // Make sure HF flag gets set on accumulator value wrap from FFh to 00h.
    let mut i = Interconnect::default();
    i.cpu.reg.a = 0xff;
    i.cpu.inc(Register::A);
    assert_eq!(i.cpu.flags.hf, true);
}

#[test]
fn test_ld_ixh_ixh() {
    let mut i = Interconnect::default();
    i.cpu.reg.a = 0xff;
    i.cpu.reg.ix = 0xfff0;
    i.cpu.ld(Register::IXH, Register::IXH);
    assert_eq!(i.cpu.reg.ix, 0xfff0);
    assert_eq!(i.cpu.cycles, 8);
    assert_eq!(i.cpu.reg.pc, 2);
}

#[test]
fn cpu_tests_test_hf_high_byte() {
    // The half carry flag should be set once we increment HL from 00FFh to 0000h
    let mut i = Interconnect::default();
    i.cpu.write_pair(BC, 1); // Set BC to 1 (we will increment HL by 1)
    i.cpu.reg.a = 0xff;
    i.cpu.write_pair(HL, 0x00FF);
    i.cpu.add_hl(BC);
    i.cpu.inc(Register::A);
    assert_eq!(i.cpu.flags.hf, true);
}

#[test]
fn test_add_half_carry() {
    // The half carry has to be tested with `a + b + carry`, not only `a + b`.
    let mut i = Interconnect::default();
    i.cpu.reg.pc = 0x1CBE;
    i.cpu.reg.a = 0x6F;
    i.cpu.flags.set(0x11);
    i.cpu.write_pair(BC, 0x0B29);
    i.cpu.write_pair(BC, 0x5B61);
    i.cpu.write_pair(HL, 0xDF6D);
    i.cpu.write_pair(SP, 0x85B2);
    i.cpu.write_pair(IX, 0x7A67);
    i.cpu.write_pair(IY, 0x7E3C);
    i.cpu.write_reg(R, 0x09);
    i.cpu.cycles = 307892903;
    i.cpu.adc_im();
    assert_eq!(i.cpu.flags.hf, true);
}

#[test]
fn tests_test_hf_flag() {
    // Make sure HF flag gets set on accumulator value wrap from FFh to 00h.
    let mut i = Interconnect::default();
    i.cpu.reg.a = 0xff;
    i.cpu.inc(Register::A);
    assert_eq!(i.cpu.flags.hf, true);
}

#[test]
fn tests_test_hf_high_byte() {
    // The half carry flag should be set once we increment HL from 00FFh to 0000h
    let mut i = Interconnect::default();
    i.cpu.write_pair(BC, 1); // Set BC to 1 (we will increment HL by 1)
    i.cpu.reg.a = 0xff;
    i.cpu.write_pair(HL, 0x00FF);
    i.cpu.add_hl(BC);
    i.cpu.inc(Register::A);
    assert_eq!(i.cpu.flags.hf, true);
}
