//! The opcode planes of the model: which instruction each opcode is.

use vstd::prelude::*;
use crate::instruction_info::Register;
use crate::machine::Machine;
use crate::rotate::Shift;

verus! {

impl Register {
    /// The high half of HL, IX or IY.
    pub open spec fn high_half(self) -> Register {
        match self {
            Register::IX => Register::IXH,
            Register::IY => Register::IYH,
            _ => Register::H,
        }
    }

    /// The low half of HL, IX or IY.
    pub open spec fn low_half(self) -> Register {
        match self {
            Register::IX => Register::IXL,
            Register::IY => Register::IYL,
            _ => Register::L,
        }
    }

    /// The byte in memory that HL, IX or IY points at: `(HL)`, `(IX+d)` or `(IY+d)`.
    pub open spec fn pointee(self) -> Register {
        match self {
            Register::IX => Register::IxIm,
            Register::IY => Register::IyIm,
            _ => Register::HL,
        }
    }

    /// The byte operand that the three-bit code `z` selects: B, C, D, E,
    /// H, L, `(HL)`, A for 0 to 7. After an index prefix, `index` is IX or
    /// IY and stands in for HL.
    pub open spec fn select(z: int, index: Register) -> Register {
        if z == 0 {
            Register::B
        } else if z == 1 {
            Register::C
        } else if z == 2 {
            Register::D
        } else if z == 3 {
            Register::E
        } else if z == 4 {
            index.high_half()
        } else if z == 5 {
            index.low_half()
        } else if z == 6 {
            index.pointee()
        } else {
            Register::A
        }
    }

    /// The pair that the two-bit code `p` selects: BC, DE, HL, SP for 0 to
    /// 3, with `index` in the place of HL.
    pub open spec fn select_pair(p: int, index: Register) -> Register {
        if p == 0 {
            Register::BC
        } else if p == 1 {
            Register::DE
        } else if p == 2 {
            index
        } else {
            Register::SP
        }
    }

    /// The pair that the two-bit code `p` selects for `PUSH` and `POP`: as
    /// [`Register::select_pair`], with AF in the place of SP.
    pub open spec fn select_stack(p: int, index: Register) -> Register {
        if p == 3 {
            Register::AF
        } else {
            Register::select_pair(p, index)
        }
    }
}

/// Bits 0 to 2 of an opcode.
pub open spec fn code_z(op: u8) -> int {
    op as int % 8
}

/// Bits 3 to 5 of an opcode.
pub open spec fn code_y(op: u8) -> int {
    op as int / 8 % 8
}

/// The rotate or shift that the three-bit code `y` selects.
pub open spec fn select_shift(y: int) -> Shift {
    if y == 0 {
        Shift::Rlc
    } else if y == 1 {
        Shift::Rrc
    } else if y == 2 {
        Shift::Rl
    } else if y == 3 {
        Shift::Rr
    } else if y == 4 {
        Shift::Sla
    } else if y == 5 {
        Shift::Sra
    } else if y == 6 {
        Shift::Sll
    } else {
        Shift::Srl
    }
}

/// Whether a code of 4, 5 or 6 occurs: the operand is H, L or `(HL)`.
pub open spec fn names_hl(z: int) -> bool {
    z == 4 || z == 5 || z == 6
}

/// Whether the opcode `op` of the primary plane names HL, H, L or `(HL)`, so
/// that an index prefix changes what it does. `EX DE,HL`, `EX (SP),HL` and
/// `LD SP,HL` have no index form here.
pub open spec fn uses_index(op: u8) -> bool {
    let z = code_z(op);
    let y = code_y(op);
    let p = y / 2;
    let q = y % 2;
    if op < 0x40 {
        (z == 1 && (q == 1 || p == 2)) || ((z == 2 || z == 3) && p == 2) || ((z == 4 || z == 5 || z
            == 6) && names_hl(y))
    } else if op < 0x80 {
        op != 0x76 && (names_hl(y) || names_hl(z))
    } else if op < 0xC0 {
        names_hl(z)
    } else {
        p == 2 && ((z == 1) || (z == 5 && q == 0))
    }
}

/// Whether `op` is one of the four prefix bytes.
pub open spec fn is_prefix(op: u8) -> bool {
    op == 0xCB || op == 0xDD || op == 0xED || op == 0xFD
}

/// Whether the primary plane has an instruction for `op`. Without a prefix
/// (`index` is HL) that is every opcode but the prefix bytes; after an index
/// prefix, those that name HL, H, L or `(HL)`.
pub open spec fn primary_known(op: u8, index: Register) -> bool {
    !is_prefix(op) && (index == Register::HL || uses_index(op))
}

/// Whether the ED plane has an instruction for `op`.
pub open spec fn extended_known(op: u8) -> bool {
    let z = code_z(op);
    let y = code_y(op);
    if 0x40 <= op < 0x80 {
        (z == 0 && y != 6) || z == 2 || z == 3 || z == 6 || (z == 7 && y < 4)
    } else {
        op == 0xA0 || op == 0xA1 || op == 0xA9 || op == 0xB0 || op == 0xB1 || op == 0xB9
    }
}

impl Machine {
    /// Whether the condition that the three-bit code `y` selects holds:
    /// NZ, Z, NC, C, PO, PE, P, M for 0 to 7.
    pub open spec fn condition(self, y: int) -> bool {
        if y == 0 {
            !self.flags.zf
        } else if y == 1 {
            self.flags.zf
        } else if y == 2 {
            !self.flags.cf
        } else if y == 3 {
            self.flags.cf
        } else if y == 4 {
            !self.flags.pf
        } else if y == 5 {
            self.flags.pf
        } else if y == 6 {
            !self.flags.sf
        } else {
            self.flags.sf
        }
    }

    /// What the opcodes 0x00 to 0x3F do.
    pub open spec fn quarter0(self, op: u8, index: Register) -> Machine {
        let z = code_z(op);
        let y = code_y(op);
        let p = y / 2;
        let q = y % 2;
        let rp = Register::select_pair(p, index);
        let r = Register::select(y, index);
        if z == 0 {
            if y == 0 {
                self.nop()
            } else if y == 1 {
                self.ex_af_af()
            } else if y == 2 {
                self.djnz()
            } else if y == 3 {
                self.jr_cond(true)
            } else {
                self.jr_cond(self.condition(y - 4))
            }
        } else if z == 1 {
            if q == 0 {
                self.ld_rp_nn(rp)
            } else {
                self.add_rp(index, rp)
            }
        } else if z == 2 {
            if p == 0 {
                if q == 0 {
                    self.ld(Register::BC, Register::A)
                } else {
                    self.ld(Register::A, Register::BC)
                }
            } else if p == 1 {
                if q == 0 {
                    self.ld(Register::DE, Register::A)
                } else {
                    self.ld_reg_mem_rp(Register::DE)
                }
            } else if p == 2 {
                if q == 0 {
                    self.shld(index)
                } else {
                    self.lhld(index)
                }
            } else {
                if q == 0 {
                    self.ld_nn_r()
                } else {
                    self.ld_r_mem_nn()
                }
            }
        } else if z == 3 {
            if q == 0 {
                self.inc_rp(rp)
            } else {
                self.dec_rp(rp)
            }
        } else if z == 4 {
            self.inc(r)
        } else if z == 5 {
            self.dec(r)
        } else if z == 6 {
            self.mvi(r)
        } else {
            if y == 0 {
                self.rlca()
            } else if y == 1 {
                self.rrca()
            } else if y == 2 {
                self.rla()
            } else if y == 3 {
                self.rra()
            } else if y == 4 {
                self.daa()
            } else if y == 5 {
                self.cpl()
            } else if y == 6 {
                self.scf()
            } else {
                self.ccf()
            }
        }
    }

    /// What the opcodes 0x40 to 0x7F do: `LD r,r'`, and `HALT` in the place
    /// of `LD (HL),(HL)`. After an index prefix a load from or to memory
    /// goes through `(IX+d)` and keeps H and L as they are named; a load
    /// between registers takes the halves of the index register for H and L.
    pub open spec fn quarter1(self, op: u8, index: Register) -> Machine {
        let z = code_z(op);
        let y = code_y(op);
        if op == 0x76 {
            self.halt()
        } else if y == 6 {
            self.ld(index.pointee(), Register::select(z, Register::HL))
        } else if z == 6 {
            self.ld(Register::select(y, Register::HL), index.pointee())
        } else {
            self.ld(Register::select(y, index), Register::select(z, index))
        }
    }

    /// What the opcodes 0x80 to 0xBF do: the arithmetic or logic operation
    /// that bits 3 to 5 select, on the operand that bits 0 to 2 select.
    pub open spec fn quarter2(self, op: u8, index: Register) -> Machine {
        let y = code_y(op);
        let r = Register::select(code_z(op), index);
        if y == 0 {
            self.add(r)
        } else if y == 1 {
            self.adc(r)
        } else if y == 2 {
            self.sub(r)
        } else if y == 3 {
            self.sbc(r)
        } else if y == 4 {
            self.and(r)
        } else if y == 5 {
            self.xor(r)
        } else if y == 6 {
            self.ora(r)
        } else {
            self.cmp(r)
        }
    }

    /// What the opcodes 0xC0 to 0xFF do, the prefix bytes left out.
    pub open spec fn quarter3(self, op: u8, index: Register) -> Machine {
        let z = code_z(op);
        let y = code_y(op);
        let p = y / 2;
        let q = y % 2;
        if z == 0 {
            self.ret_cond(self.condition(y))
        } else if z == 1 {
            if q == 0 {
                self.pop(Register::select_stack(p, index))
            } else if p == 0 {
                self.ret()
            } else if p == 1 {
                self.exx()
            } else if p == 2 {
                if index == Register::HL {
                    self.pchl()
                } else {
                    self.jp(self.read_pair(index), 8)
                }
            } else {
                self.sphl()
            }
        } else if z == 2 {
            self.jp_cond(self.condition(y))
        } else if z == 3 {
            if y == 0 {
                self.jp_cond(true)
            } else if y == 2 {
                self.out(Register::A)
            } else if y == 3 {
                self.in_a()
            } else if y == 4 {
                self.xthl()
            } else if y == 5 {
                self.ex_de_hl()
            } else if y == 6 {
                self.interrupt(false)
            } else {
                self.interrupt(true)
            }
        } else if z == 4 {
            self.call_cond(self.imm16(), self.condition(y))
        } else if z == 5 {
            if q == 0 {
                self.push(Register::select_stack(p, index))
            } else {
                self.call(self.imm16())
            }
        } else if z == 6 {
            if y == 0 {
                self.adi()
            } else if y == 1 {
                self.adc_im()
            } else if y == 2 {
                self.sui()
            } else if y == 3 {
                self.sbi()
            } else if y == 4 {
                self.ani()
            } else if y == 5 {
                self.xri()
            } else if y == 6 {
                self.ori()
            } else {
                self.cp_im()
            }
        } else {
            self.rst((y * 8) as u16)
        }
    }

    /// What the opcode `op` of the primary plane does, for `op` with
    /// [`primary_known`]. `index` is HL without a prefix, IX after 0xDD and IY
    /// after 0xFD.
    pub open spec fn primary(self, op: u8, index: Register) -> Machine {
        if op < 0x40 {
            self.quarter0(op, index)
        } else if op < 0x80 {
            self.quarter1(op, index)
        } else if op < 0xC0 {
            self.quarter2(op, index)
        } else {
            self.quarter3(op, index)
        }
    }

    /// What the opcode `op` of the CB plane does. Bits 6 and 7 select a
    /// rotate or shift, `BIT`, `RES` or `SET`; bits 3 to 5 the kind of
    /// shift or the number of the bit; bits 0 to 2 the operand. After an
    /// index prefix the operand is `(IX+d)` or `(IY+d)` whatever bits 0 to 2
    /// say.
    pub open spec fn bits(self, op: u8, index: Register) -> Machine {
        let y = code_y(op);
        let r = if index == Register::HL {
            Register::select(code_z(op), index)
        } else {
            index.pointee()
        };
        if op < 0x40 {
            self.shift(select_shift(y), r)
        } else if op < 0x80 {
            self.bit(y as u8, r)
        } else if op < 0xC0 {
            self.res(y as u8, r)
        } else {
            self.set(y as u8, r)
        }
    }

    /// What the opcode `op` of the ED plane does, for `op` with [`extended_known`].
    pub open spec fn extended(self, op: u8) -> Machine {
        let z = code_z(op);
        let y = code_y(op);
        let p = y / 2;
        let q = y % 2;
        let rp = Register::select_pair(p, Register::HL);
        if op == 0xA0 {
            self.ldi()
        } else if op == 0xA1 {
            self.cpi()
        } else if op == 0xA9 {
            self.cpd()
        } else if op == 0xB0 {
            self.ldir()
        } else if op == 0xB1 {
            self.cpir()
        } else if op == 0xB9 {
            self.cpdr()
        } else if z == 0 {
            self.in_c(Register::select(y, Register::HL))
        } else if z == 2 {
            if q == 0 {
                self.sbc_hl(rp)
            } else {
                self.adc_hl(rp)
            }
        } else if z == 3 {
            if q == 0 {
                self.ld_mem_nn_rp(rp)
            } else {
                self.ld_rp_mem_nn(rp)
            }
        } else if z == 6 {
            self.set_interrupt_mode(
                if y % 4 < 2 {
                    0
                } else if y % 4 == 2 {
                    1
                } else {
                    2
                },
            )
        } else {
            if y == 0 {
                self.ld(Register::I, Register::A)
            } else if y == 1 {
                self.ld(Register::R, Register::A)
            } else if y == 2 {
                self.ld(Register::A, Register::I)
            } else {
                self.ld(Register::A, Register::R)
            }
        }
    }
}

} // verus!
