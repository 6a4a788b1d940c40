//! One step of the processor: fetch, refresh, dispatch; and the
//! power-on and reset states.

use vstd::prelude::*;
use crate::bits::{low, low_byte};
use crate::cpu::{Cpu, Flags, Interrupt, Io, Registers};
use crate::decode::names_index;
use crate::instruction_info::Register;
use crate::machine::Machine;
use crate::memory::{Memory, MemoryRW, RAM_SIZE, ROM_SIZE};
use crate::plane::{extended_known, primary_known};

verus! {

/// Why a step stopped without running an instruction: no instruction is
/// defined for the bytes at the program counter.
#[derive(Clone, Copy, Debug, PartialEq, Eq, Structural)]
pub struct Trap {
    /// The address of the instruction.
    pub pc: u16,
    /// The opcode that was to be decoded.
    pub opcode: u16,
    /// The byte after the first byte of the instruction.
    pub next: u8,
    /// The byte after that one.
    pub third: u8,
}

/// The refresh register `r` after `k` opcode fetches: bit 7 stays, bits 0 to
/// 6 count up modulo 128.
#[verifier::opaque]
pub open spec fn refreshed(r: u8, k: nat) -> u8 {
    ((r as int / 128) * 128 + (r as int % 128 + k) % 128) as u8
}

/// Counting `a` fetches and then `b` is counting `a + b`; counting none
/// changes nothing.
pub proof fn lemma_refreshed(r: u8, a: nat, b: nat)
    ensures
        refreshed(refreshed(r, a), b) == refreshed(r, a + b),
        refreshed(r, 0) == r,
        refreshed(r, a) / 128 == r / 128,
        refreshed(r, a) % 128 == (r % 128 + a) % 128,
{
    reveal(refreshed);
    let q = r as int / 128;
    let x = (r as int % 128 + a) % 128;
    assert(refreshed(r, a) == q * 128 + x);
    assert((q * 128 + x) / 128 == q && (q * 128 + x) % 128 == x);
    vstd::arithmetic::div_mod::lemma_add_mod_noop_right(b as int, r as int % 128 + a, 128);
    vstd::arithmetic::div_mod::lemma_add_mod_noop_right(b as int, x, 128);
    assert((x + b) % 128 == (r as int % 128 + a + b) % 128);
}

/// Whether the ED plane has an instruction for `op`.
pub fn knows_extended(op: u8) -> (b: bool)
    ensures
        b == extended_known(op),
{
    let z = crate::decode::low_code(op);
    let y = crate::decode::mid_code(op);
    if 0x40 <= op && op < 0x80 {
        (z == 0 && y != 6) || z == 2 || z == 3 || z == 6 || (z == 7 && y < 4)
    } else {
        matches!(op, 0xA0 | 0xA1 | 0xA9 | 0xB0 | 0xB1 | 0xB9)
    }
}

impl Registers {
    /// The register file with every register zero.
    pub open spec fn zeroed() -> Registers {
        Registers {
            a: 0,
            b: 0,
            c: 0,
            d: 0,
            e: 0,
            h: 0,
            l: 0,
            a_: 0,
            b_: 0,
            c_: 0,
            d_: 0,
            e_: 0,
            h_: 0,
            l_: 0,
            m: 0,
            i: 0,
            r: 0,
            pc: 0,
            prev_pc: 0,
            sp: 0,
            ix: 0,
            iy: 0,
        }
    }
}

impl Default for Registers {
    fn default() -> (r: Registers)
        ensures
            r == Registers::zeroed(),
    {
        Registers {
            a: 0,
            b: 0,
            c: 0,
            d: 0,
            e: 0,
            h: 0,
            l: 0,
            a_: 0,
            b_: 0,
            c_: 0,
            d_: 0,
            e_: 0,
            h_: 0,
            l_: 0,
            m: 0,
            i: 0,
            r: 0,
            pc: 0,
            prev_pc: 0,
            sp: 0,
            ix: 0,
            iy: 0,
        }
    }
}

impl Default for Flags {
    fn default() -> (f: Flags)
        ensures
            f == Flags::cleared(),
    {
        Flags::new()
    }
}

impl Io {
    /// The latch at port 0 with the byte 0 on it, in neither direction.
    pub open spec fn idle() -> Io {
        Io { port: 0, value: 0, input: false, output: false }
    }
}

impl Default for Io {
    fn default() -> (io: Io)
        ensures
            io == Io::idle(),
    {
        Io { port: 0, value: 0, input: false, output: false }
    }
}

impl Interrupt {
    /// Mode 0 with both flip-flops and every latch cleared.
    pub open spec fn cleared() -> Interrupt {
        Interrupt {
            halt: false,
            irq: false,
            vector: 0,
            nmi_pending: false,
            nmi: false,
            int: false,
            iff1: false,
            iff2: false,
            mode: 0,
        }
    }
}

impl Default for Interrupt {
    fn default() -> (latches: Interrupt)
        ensures
            latches == Interrupt::cleared(),
    {
        Interrupt {
            halt: false,
            irq: false,
            vector: 0,
            nmi_pending: false,
            nmi: false,
            int: false,
            iff1: false,
            iff2: false,
            mode: 0,
        }
    }
}

impl Machine {
    /// The machine as it is built: every register, flag and latch is zero,
    /// memory is all zeros, and memory mapping is on.
    pub open spec fn blank() -> Machine {
        Machine {
            opcode: 0,
            next_opcode: 0,
            breakpoint: false,
            debug: false,
            reg: Registers::zeroed(),
            flags: Flags::cleared(),
            cycles: 0,
            io: Io::idle(),
            int: Interrupt::cleared(),
            int_pending: false,
            cpm_compat: false,
            rom: Seq::new(ROM_SIZE as nat, |i: int| 0u8),
            ram: Seq::new(RAM_SIZE as nat, |i: int| 0u8),
        }
    }

    /// The machine after a reset: A is 0xFF, F is 0xFF, SP is 0xFFFF; the
    /// other main registers, the index registers, I, R and the program
    /// counter are zero; the interrupt mode is 0 and both flip-flops and the
    /// halt latch are cleared. Memory, the shadow registers and flags, the
    /// cycle counter and the other latches stay.
    pub open spec fn reset(self) -> Machine {
        Machine {
            reg: Registers {
                a: 0xFF,
                b: 0,
                c: 0,
                d: 0,
                e: 0,
                h: 0,
                l: 0,
                i: 0,
                r: 0,
                pc: 0,
                sp: 0xFFFF,
                ix: 0,
                iy: 0,
                ..self.reg
            },
            flags: Flags {
                sf: true,
                zf: true,
                yf: true,
                hf: true,
                xf: true,
                pf: true,
                nf: true,
                cf: true,
                ..self.flags
            },
            int: Interrupt { mode: 0, iff1: false, iff2: false, halt: false, ..self.int },
            ..self
        }
    }

    /// The machine with the refresh register advanced by `k` opcode fetches.
    pub open spec fn refresh(self, k: nat) -> Machine {
        Machine { reg: Registers { r: refreshed(self.reg.r, k), ..self.reg }, ..self }
    }

    /// The machine with the byte at the program counter and the byte after
    /// it latched as the opcode and the next opcode.
    pub open spec fn fetch(self) -> Machine {
        Machine {
            opcode: self.read8(self.reg.pc) as u16,
            next_opcode: self.imm8() as u16,
            ..self
        }
    }

    /// The register that stands for HL after the prefix byte `op`: IX after
    /// 0xDD, IY after 0xFD.
    pub open spec fn index_of(op: u8) -> Register {
        if op == 0xDD {
            Register::IX
        } else {
            Register::IY
        }
    }

    /// Whether an instruction is defined for `opcode` as the first byte,
    /// with the bytes after the program counter as the following ones.
    ///
    /// Every unprefixed opcode and every opcode of the CB planes is
    /// defined. Of the ED plane and of the DD and FD planes, those that
    /// [`extended_known`] and [`primary_known`] tell.
    pub open spec fn known(self, opcode: u16) -> bool {
        let op = low(opcode);
        let next = self.imm8();
        opcode <= 0xFF && (if op == 0xED {
            extended_known(next)
        } else if op == 0xDD || op == 0xFD {
            next == 0xCB || primary_known(next, Machine::index_of(op))
        } else {
            true
        })
    }

    /// What the instruction with first byte `opcode` does, for an opcode
    /// that is [`Machine::known`].
    ///
    /// The refresh register counts the opcode, and the byte after a prefix
    /// too. A prefix byte selects the plane of the byte after it; the opcode
    /// of a DDCB or FDCB instruction is its fourth byte.
    pub open spec fn decode(self, opcode: u16) -> Machine {
        let op = low(opcode);
        let next = self.imm8();
        if op == 0xCB {
            self.refresh(2).bits(next, Register::HL)
        } else if op == 0xED {
            self.refresh(2).extended(next)
        } else if op == 0xDD || op == 0xFD {
            if next == 0xCB {
                self.refresh(2).bits(
                    self.read8(self.reg.pc.wrapping_add(3)),
                    Machine::index_of(op),
                )
            } else {
                self.refresh(2).primary(next, Machine::index_of(op))
            }
        } else {
            self.refresh(1).primary(op, Register::HL)
        }
    }

    /// What is reported when `opcode` is not known.
    pub open spec fn trap(self, opcode: u16) -> Trap {
        Trap {
            pc: self.reg.pc,
            opcode: opcode,
            next: self.imm8(),
            third: self.read8(self.reg.pc.wrapping_add(2)),
        }
    }

    /// Whether the instruction at the program counter is defined.
    pub open spec fn step_known(self) -> bool {
        self.known(self.read8(self.reg.pc) as u16)
    }

    /// One step: the instruction at the program counter is fetched and run.
    pub open spec fn step(self) -> Machine {
        self.fetch().decode(self.read8(self.reg.pc) as u16)
    }
}

impl Cpu {
    /// A processor with every register, flag and latch zero and with zeroed memory.
    pub fn default() -> (cpu: Cpu)
        ensures
            cpu@ == Machine::blank(),
    {
        Cpu {
            opcode: 0,
            next_opcode: 0,
            reg: Registers::default(),
            flags: Flags::new(),
            cycles: 0,
            debug: false,
            breakpoint: false,
            io: Io::default(),
            int: Interrupt::default(),
            int_pending: false,
            memory: Memory::new(),
            cpm_compat: false,
        }
    }

    /// Resets the processor; memory stays.
    pub fn reset(&mut self)
        ensures
            final(self)@ =~= old(self)@.reset(),
    {
        self.reg = Registers {
            a: 0xFF,
            b: 0,
            c: 0,
            d: 0,
            e: 0,
            h: 0,
            l: 0,
            i: 0,
            r: 0,
            pc: 0,
            sp: 0xFFFF,
            ix: 0,
            iy: 0,
            ..self.reg
        };
        self.flags.set(0xFF);
        proof {
            assert(0xFFu8 & 0x80 != 0 && 0xFFu8 & 0x40 != 0 && 0xFFu8 & 0x20 != 0 && 0xFFu8 & 0x10
                != 0 && 0xFFu8 & 0x08 != 0 && 0xFFu8 & 0x04 != 0 && 0xFFu8 & 0x02 != 0 && 0xFFu8
                & 0x01 != 0) by (bit_vector);
        }
        self.int = Interrupt { mode: 0, iff1: false, iff2: false, halt: false, ..self.int };
    }

    /// Counts one opcode fetch in the refresh register.
    pub fn refresh(&mut self)
        ensures
            final(self)@ =~= old(self)@.refresh(1),
    {
        let r = self.reg.r;
        reveal(refreshed);
        assert((r & 0x7F) < 128 && ((r & 0x80) | ((((r & 0x7F) + 1) as u8) & 0x7F)) == (r / 128)
            * 128 + (r % 128 + 1) % 128) by (bit_vector);
        let count: u8 = (r & 0x7F) + 1;
        self.reg.r = (r & 0x80) | (count & 0x7F);
    }

    /// Counts an opcode fetch after a prefix byte.
    pub fn refresh_prefixed(&mut self)
        ensures
            final(self)@ =~= old(self)@.refresh(2),
    {
        proof {
            lemma_refreshed(self.reg.r, 1, 1);
        }
        self.refresh();
        self.refresh();
    }

    /// Latches the opcode at the program counter and the byte after it.
    pub fn fetch(&mut self)
        ensures
            final(self)@ =~= old(self)@.fetch(),
    {
        self.opcode = self.read8(self.reg.pc) as u16;
        self.next_opcode = self.imm8() as u16;
    }

    /// Runs the instruction whose first byte is `opcode`; the bytes after
    /// it are read at the program counter. Nothing changes when no
    /// instruction is defined for it.
    pub fn decode(&mut self, opcode: u16) -> (res: Result<(), Trap>)
        ensures
            res.is_ok() == old(self)@.known(opcode),
            res.is_ok() ==> final(self)@ =~= old(self)@.decode(opcode),
            res.is_err() ==> final(self)@ =~= old(self)@,
            res matches Err(t) ==> t == old(self)@.trap(opcode),
    {
        let next = self.imm8();
        let trap = Trap {
            pc: self.reg.pc,
            opcode: opcode,
            next: next,
            third: self.read8(self.reg.pc.wrapping_add(2)),
        };
        if opcode > 0xFF {
            return Err(trap);
        }
        let op = low_byte(opcode);
        if op == 0xCB {
            self.refresh_prefixed();
            self.bits(next, Register::HL);
        } else if op == 0xED {
            if !knows_extended(next) {
                return Err(trap);
            }
            self.refresh_prefixed();
            self.extended(next);
        } else if op == 0xDD || op == 0xFD {
            let index = if op == 0xDD { Register::IX } else { Register::IY };
            if next == 0xCB {
                let last = self.read8(self.reg.pc.wrapping_add(3));
                self.refresh_prefixed();
                self.bits(last, index);
            } else {
                let prefix = next == 0xDD || next == 0xED || next == 0xFD;
                if prefix || !names_index(next) {
                    return Err(trap);
                }
                self.refresh_prefixed();
                self.primary(next, index);
            }
        } else {
            self.refresh();
            self.primary(op, Register::HL);
        }
        Ok(())
    }

    /// Runs the instruction at the program counter.
    pub fn execute(&mut self) -> (res: Result<(), Trap>)
        ensures
            res.is_ok() == old(self)@.step_known(),
            res.is_ok() ==> final(self)@ =~= old(self)@.step(),
            res.is_err() ==> final(self)@ =~= old(self)@.fetch(),
            res matches Err(t) ==> t == old(self)@.trap(old(self)@.read8(old(self).reg.pc) as u16),
    {
        self.fetch();
        self.decode(self.opcode)
    }
}

} // verus!
