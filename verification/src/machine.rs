//! The mathematical model of the processor and its bus.

use vstd::prelude::*;
use crate::bits::{displace, high, low, word};
use crate::cpu::{Cpu, Flags, Interrupt, Io, Registers};
use crate::instruction_info::Register;
use crate::memory::{RAM_SIZE, ROM_SIZE};

verus! {

/// The mathematical model of the processor: every field of [`Cpu`], with the
/// two memory regions as sequences of bytes.
///
/// What an instruction does is stated as a function from one `Machine` to the
/// next; the executable methods of [`Cpu`] are proved to compute it.
#[verifier::ext_equal]
pub struct Machine {
    pub opcode: u16,
    pub next_opcode: u16,
    pub breakpoint: bool,
    pub debug: bool,
    pub reg: Registers,
    pub flags: Flags,
    pub cycles: usize,
    pub io: Io,
    pub int: Interrupt,
    pub int_pending: bool,
    pub cpm_compat: bool,
    pub rom: Seq<u8>,
    pub ram: Seq<u8>,
}

impl View for Cpu {
    type V = Machine;

    open spec fn view(&self) -> Machine {
        Machine {
            opcode: self.opcode,
            next_opcode: self.next_opcode,
            breakpoint: self.breakpoint,
            debug: self.debug,
            reg: self.reg,
            flags: self.flags,
            cycles: self.cycles,
            io: self.io,
            int: self.int,
            int_pending: self.int_pending,
            cpm_compat: self.cpm_compat,
            rom: self.memory.rom(),
            ram: self.memory.ram(),
        }
    }
}

impl Machine {
    /// Both memory regions have their full size.
    pub open spec fn wf(self) -> bool {
        self.rom.len() == ROM_SIZE && self.ram.len() == RAM_SIZE
    }

    /// The byte that a read of bus address `addr` returns.
    ///
    /// In CP/M mode the first region is addressed directly. Otherwise
    /// addresses below 0x4000 and above 0x5000 read the first region,
    /// 0x4000 to 0x4FFF read the second region from its start, and 0x5000
    /// reads the interrupt flag.
    pub open spec fn read8(self, addr: u16) -> u8 {
        if self.cpm_compat {
            self.rom[addr as int]
        } else if addr < 0x4000 {
            self.rom[addr as int]
        } else if addr == 0x5000 {
            if self.int.int {
                1
            } else {
                0
            }
        } else if addr < 0x5000 {
            self.ram[addr - 0x4000]
        } else {
            self.rom[addr as int]
        }
    }

    /// The machine after a write of `byte` to bus address `addr`.
    ///
    /// In CP/M mode the first region is written directly. Otherwise 0x4000
    /// to 0x4FFF write the second region from its start, 0x5000 raises the
    /// interrupt-pending latch and stores nothing, and every other address
    /// writes the second region at that address.
    pub open spec fn write8(self, addr: u16, byte: u8) -> Machine {
        if self.cpm_compat {
            Machine { rom: self.rom.update(addr as int, byte), ..self }
        } else if addr < 0x4000 {
            Machine { ram: self.ram.update(addr as int, byte), ..self }
        } else if addr < 0x5000 {
            Machine { ram: self.ram.update(addr - 0x4000, byte), ..self }
        } else if addr == 0x5000 {
            Machine { int_pending: true, ..self }
        } else {
            Machine { ram: self.ram.update(addr as int, byte), ..self }
        }
    }

    /// The little-endian word at `addr` and the address after it, modulo 65536.
    pub open spec fn read16(self, addr: u16) -> u16 {
        word(self.read8(addr.wrapping_add(1)), self.read8(addr))
    }

    /// The machine after the low byte of `w` is written to `addr` and the
    /// high byte to the address after it, modulo 65536.
    pub open spec fn write16(self, addr: u16, w: u16) -> Machine {
        self.write8(addr, low(w)).write8(addr.wrapping_add(1), high(w))
    }

    /// Whether a byte written to `addr` is the byte read from it afterwards.
    pub open spec fn reads_back(self, addr: u16) -> bool {
        self.cpm_compat || (0x4000 <= addr < 0x5000)
    }

    /// The program counter moved forward by `t`, modulo 65536; the old value
    /// is kept as the previous program counter.
    pub open spec fn adv_pc(self, t: u16) -> Machine {
        Machine {
            reg: Registers { prev_pc: self.reg.pc, pc: self.reg.pc.wrapping_add(t), ..self.reg },
            ..self
        }
    }

    /// The cycle counter increased by `t`, wrapping at the width of `usize`.
    pub open spec fn adv_cycles(self, t: usize) -> Machine {
        Machine { cycles: self.cycles.wrapping_add(t), ..self }
    }

    /// The program counter moved forward by `len` and the cycle counter by `t`.
    pub open spec fn advance(self, len: u16, t: usize) -> Machine {
        self.adv_pc(len).adv_cycles(t)
    }

    /// The program counter set to `addr`; the old value is kept as the previous one.
    pub open spec fn jump(self, addr: u16) -> Machine {
        Machine { reg: Registers { prev_pc: self.reg.pc, pc: addr, ..self.reg }, ..self }
    }

    /// The address `(IX+d)`, with `d` the displacement byte that follows the
    /// prefix and the opcode byte of the instruction at the program counter.
    pub open spec fn ix_d(self) -> u16 {
        displace(self.reg.ix, self.read8(self.reg.pc.wrapping_add(2)))
    }

    /// The address `(IY+d)`, with `d` read as for [`Machine::ix_d`].
    pub open spec fn iy_d(self) -> u16 {
        displace(self.reg.iy, self.read8(self.reg.pc.wrapping_add(2)))
    }

    /// The value of a 16-bit register pair: the high register times 256 plus
    /// the low one; AF is A with the packed flags.
    pub open spec fn read_pair(self, reg: Register) -> u16 {
        match reg {
            Register::BC => word(self.reg.b, self.reg.c),
            Register::DE => word(self.reg.d, self.reg.e),
            Register::HL => word(self.reg.h, self.reg.l),
            Register::AF => word(self.reg.a, self.flags.byte()),
            Register::IX => self.reg.ix,
            Register::IY => self.reg.iy,
            _ => self.reg.sp,
        }
    }

    /// The machine with `value` in a 16-bit register pair.
    pub open spec fn write_pair(self, reg: Register, value: u16) -> Machine {
        match reg {
            Register::BC => Machine {
                reg: Registers { b: high(value), c: low(value), ..self.reg },
                ..self
            },
            Register::DE => Machine {
                reg: Registers { d: high(value), e: low(value), ..self.reg },
                ..self
            },
            Register::HL => Machine {
                reg: Registers { h: high(value), l: low(value), ..self.reg },
                ..self
            },
            Register::AF => Machine {
                reg: Registers { a: high(value), ..self.reg },
                flags: self.flags.with_byte(low(value)),
                ..self
            },
            Register::IX => Machine { reg: Registers { ix: value, ..self.reg }, ..self },
            Register::IY => Machine { reg: Registers { iy: value, ..self.reg }, ..self },
            _ => Machine { reg: Registers { sp: value, ..self.reg }, ..self },
        }
    }

    /// The value of a byte operand: a register, a half of an index register,
    /// or the byte in memory at `(HL)`, `(IX+d)` or `(IY+d)`.
    pub open spec fn read_reg(self, reg: Register) -> u8 {
        match reg {
            Register::A => self.reg.a,
            Register::B => self.reg.b,
            Register::C => self.reg.c,
            Register::D => self.reg.d,
            Register::E => self.reg.e,
            Register::H => self.reg.h,
            Register::L => self.reg.l,
            Register::M => self.reg.m,
            Register::I => self.reg.i,
            Register::R => self.reg.r,
            Register::IXH => high(self.reg.ix),
            Register::IXL => low(self.reg.ix),
            Register::IYH => high(self.reg.iy),
            Register::IYL => low(self.reg.iy),
            Register::IxIm => self.read8(self.ix_d()),
            Register::IyIm => self.read8(self.iy_d()),
            _ => self.read8(self.read_pair(Register::HL)),
        }
    }

    /// The machine with `value` in a byte operand.
    pub open spec fn write_reg(self, reg: Register, value: u8) -> Machine {
        match reg {
            Register::A => Machine { reg: Registers { a: value, ..self.reg }, ..self },
            Register::B => Machine { reg: Registers { b: value, ..self.reg }, ..self },
            Register::C => Machine { reg: Registers { c: value, ..self.reg }, ..self },
            Register::D => Machine { reg: Registers { d: value, ..self.reg }, ..self },
            Register::E => Machine { reg: Registers { e: value, ..self.reg }, ..self },
            Register::H => Machine { reg: Registers { h: value, ..self.reg }, ..self },
            Register::L => Machine { reg: Registers { l: value, ..self.reg }, ..self },
            Register::M => Machine { reg: Registers { m: value, ..self.reg }, ..self },
            Register::I => Machine { reg: Registers { i: value, ..self.reg }, ..self },
            Register::R => Machine { reg: Registers { r: value, ..self.reg }, ..self },
            Register::IXH => Machine {
                reg: Registers { ix: word(value, low(self.reg.ix)), ..self.reg },
                ..self
            },
            Register::IXL => Machine {
                reg: Registers { ix: word(high(self.reg.ix), value), ..self.reg },
                ..self
            },
            Register::IYH => Machine {
                reg: Registers { iy: word(value, low(self.reg.iy)), ..self.reg },
                ..self
            },
            Register::IYL => Machine {
                reg: Registers { iy: word(high(self.reg.iy), value), ..self.reg },
                ..self
            },
            Register::IxIm => self.write8(self.ix_d(), value),
            Register::IyIm => self.write8(self.iy_d(), value),
            _ => self.write8(self.read_pair(Register::HL), value),
        }
    }
}

} // verus!
