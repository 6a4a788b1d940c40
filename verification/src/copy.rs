//! What `LDIR` has done when it has run to its end.

use vstd::prelude::*;
use crate::bits::{lemma_wrap16, wrap16};
use crate::instruction_info::Register;
use crate::laws::{lemma_pair_written, lemma_write_read};
use crate::machine::Machine;

verus! {

impl Machine {
    /// The machine after `LDIR` has run `n` times.
    pub open spec fn ldir_times(self, n: nat) -> Machine
        decreases n,
    {
        if n == 0 {
            self
        } else {
            self.ldir().ldir_times((n - 1) as nat)
        }
    }

    /// The number of bytes that a block instruction moves before BC is
    /// zero: BC, or 65536 when BC is zero at the start.
    pub open spec fn block_len(self) -> nat {
        let bc = self.read_pair(Register::BC);
        if bc == 0 {
            0x1_0000
        } else {
            bc as nat
        }
    }

    /// The byte at the address `i` bytes above `base`, modulo 65536.
    pub open spec fn byte_above(self, base: u16, i: int) -> u8 {
        self.read8(wrap16(base + i))
    }

    /// Whether every byte of the destination block of `len` bytes at `de`
    /// reads back what is written to it.
    pub open spec fn block_reads_back(self, de: u16, len: nat) -> bool {
        forall|i: int| 0 <= i < len ==> #[trigger] self.reads_back(wrap16(de + i))
    }
}

/// Whether a copy of `len` bytes from `hl` to `de`, lowest address first,
/// never writes a byte of the source that it has still to read.
pub open spec fn forward_safe(hl: u16, de: u16, len: nat) -> bool {
    forall|i: int, j: int| 0 <= i < j < len ==> #[trigger] wrap16(de + i) != #[trigger] wrap16(hl + j)
}

/// Two addresses less than 65536 apart above one base differ.
pub proof fn lemma_above_distinct(base: u16, i: int, k: int)
    requires
        0 <= i < k < i + 0x1_0000,
    ensures
        wrap16(base + i) != wrap16(base + k),
{
}

/// One address further above a base is the address after.
pub proof fn lemma_above_next(base: u16, k: int)
    requires
        0 <= k,
    ensures
        wrap16(base + k).wrapping_add(1) == wrap16(base + k + 1),
{
    lemma_wrap16(0, wrap16(base + k), 1);
}

/// What one `LDIR` does: the byte at `(HL)` is at `(DE)`, no other byte
/// has changed, the pairs have moved by one, and the program counter stays
/// on the instruction until BC is zero.
pub proof fn lemma_ldir_once(s: Machine)
    requires
        s.wf(),
        s.reads_back(s.read_pair(Register::DE)),
    ensures
        ({
            let n = s.ldir();
            let hl = s.read_pair(Register::HL);
            let de = s.read_pair(Register::DE);
            let bc = s.read_pair(Register::BC);
            &&& n.wf()
            &&& n.cpm_compat == s.cpm_compat
            &&& n.read_pair(Register::HL) == hl.wrapping_add(1)
            &&& n.read_pair(Register::DE) == de.wrapping_add(1)
            &&& n.read_pair(Register::BC) == bc.wrapping_sub(1)
            &&& n.read8(de) == s.read8(hl)
            &&& forall|b: u16| b != de ==> #[trigger] n.read8(b) == s.read8(b)
            &&& n.reg.pc == if bc == 1 {
                s.reg.pc.wrapping_add(2)
            } else {
                s.reg.pc
            }
        }),
{
    let hl = s.read_pair(Register::HL);
    let de = s.read_pair(Register::DE);
    let bc = s.read_pair(Register::BC).wrapping_sub(1);
    let v = s.read8(hl);
    let w = s.write8(de, v);
    lemma_write_read(s, de, v, de);
    assert forall|b: u16| b != de implies #[trigger] w.read8(b) == s.read8(b) by {
        lemma_write_read(s, de, v, b);
    }
    let l = s.ldi();
    let m0 = Machine { flags: l.flags, ..w };
    let m1 = m0.write_pair(Register::HL, hl.wrapping_add(1));
    let m2 = m1.write_pair(Register::DE, de.wrapping_add(1));
    let m3 = m2.write_pair(Register::BC, bc);
    assert(l == m3.advance(2, 16));
    lemma_pair_written(m0, Register::HL, hl.wrapping_add(1));
    lemma_pair_written(m1, Register::DE, de.wrapping_add(1));
    lemma_pair_written(m2, Register::BC, bc);
    assert(l.read_pair(Register::HL) == hl.wrapping_add(1));
    assert(l.read_pair(Register::DE) == de.wrapping_add(1));
    assert(l.read_pair(Register::BC) == bc);
    assert(l.rom == w.rom && l.ram == w.ram && l.cpm_compat == w.cpm_compat && l.int == w.int);
    assert forall|b: u16| #[trigger] l.read8(b) == w.read8(b) by {}
    let n = s.ldir();
    assert(n.rom == l.rom && n.ram == l.ram && n.cpm_compat == l.cpm_compat && n.int == l.int);
    assert forall|b: u16| #[trigger] n.read8(b) == l.read8(b) by {}
    lemma_wrap16(0, s.reg.pc, 2);
    lemma_wrap16(0, s.reg.pc.wrapping_add(2), 2);
    lemma_wrap16(0, s.read_pair(Register::BC), 1);
}

/// What holds of the machine `s` that `LDIR` leaves after `k` of the `len`
/// bytes of the block of `m` are copied: the pairs have moved by `k`, the
/// first `k` bytes of the destination are those that the source had, the
/// rest of the source is as it was, and the program counter has left the
/// instruction if and only if all bytes are copied.
pub open spec fn copied(m: Machine, s: Machine, k: nat, len: nat) -> bool {
    let hl = m.read_pair(Register::HL);
    let de = m.read_pair(Register::DE);
    &&& s.wf()
    &&& s.cpm_compat == m.cpm_compat
    &&& k < len ==> s.block_len() == len - k
    &&& k == len ==> s.read_pair(Register::BC) == 0
    &&& s.read_pair(Register::HL) == wrap16(hl + k)
    &&& s.read_pair(Register::DE) == wrap16(de + k)
    &&& forall|i: int| 0 <= i < k ==> #[trigger] s.byte_above(de, i) == m.byte_above(hl, i)
    &&& forall|j: int| k <= j < len ==> #[trigger] s.byte_above(hl, j) == m.byte_above(hl, j)
    &&& s.reg.pc == if k == len {
        m.reg.pc.wrapping_add(2)
    } else {
        m.reg.pc
    }
}

/// From `k` copied bytes, `LDIR` run for the rest of the block copies all of it.
pub proof fn lemma_ldir_run(m: Machine, s: Machine, k: nat, len: nat)
    requires
        len == m.block_len(),
        k <= len,
        copied(m, s, k, len),
        m.block_reads_back(m.read_pair(Register::DE), len),
        forward_safe(m.read_pair(Register::HL), m.read_pair(Register::DE), len),
    ensures
        copied(m, s.ldir_times((len - k) as nat), len, len),
    decreases len - k,
{
    if k < len {
        let hl = m.read_pair(Register::HL);
        let de = m.read_pair(Register::DE);
        let n = s.ldir();
        let to = wrap16(de + k);
        assert(m.reads_back(to));
        assert(s.reads_back(to));
        lemma_ldir_once(s);
        lemma_above_next(hl, k as int);
        lemma_above_next(de, k as int);
        lemma_wrap16(0, s.read_pair(Register::BC), 1);
        assert(n.read8(to) == m.byte_above(hl, k as int)) by {
            assert(s.byte_above(hl, k as int) == m.byte_above(hl, k as int));
        }
        assert forall|i: int| 0 <= i < k + 1 implies #[trigger] n.byte_above(de, i) == m.byte_above(
            hl,
            i,
        ) by {
            if i < k {
                lemma_above_distinct(de, i, k as int);
                assert(s.byte_above(de, i) == m.byte_above(hl, i));
            }
        }
        assert forall|j: int| k + 1 <= j < len implies #[trigger] n.byte_above(hl, j)
            == m.byte_above(hl, j) by {
            assert(wrap16(de + k) != wrap16(hl + j));
            assert(s.byte_above(hl, j) == m.byte_above(hl, j));
        }
        assert(copied(m, n, k + 1, len));
        lemma_ldir_run(m, n, k + 1, len);
        assert(s.ldir_times((len - k) as nat) == n.ldir_times((len - k - 1) as nat));
    }
}

/// After `LDIR` has run for every byte of its block, BC is zero, the
/// block at the DE of the start holds what the block at the HL of the start held,
/// and the program counter has moved past the instruction.
///
/// The block is BC bytes long, 65536 for BC zero; its addresses wrap at
/// 65536. The law holds when the destination reads back what is written to
/// it and no byte of the source is overwritten before it is read.
pub proof fn law_ldir(m: Machine)
    requires
        m.wf(),
        m.block_reads_back(m.read_pair(Register::DE), m.block_len()),
        forward_safe(m.read_pair(Register::HL), m.read_pair(Register::DE), m.block_len()),
    ensures
        ({
            let n = m.ldir_times(m.block_len());
            &&& n.read_pair(Register::BC) == 0
            &&& n.reg.pc == m.reg.pc.wrapping_add(2)
            &&& forall|i: int|
                0 <= i < m.block_len() ==> #[trigger] n.byte_above(m.read_pair(Register::DE), i)
                    == m.byte_above(m.read_pair(Register::HL), i)
        }),
{
    lemma_wrap16(0, m.read_pair(Register::HL), 0);
    lemma_wrap16(0, m.read_pair(Register::DE), 0);
    assert(copied(m, m, 0, m.block_len()));
    lemma_ldir_run(m, m, 0, m.block_len());
}

/// A block that does not wrap and whose destination lies wholly below or
/// wholly above its source is copied safely.
pub proof fn lemma_disjoint_is_safe(hl: u16, de: u16, len: nat)
    requires
        hl + len <= 0x1_0000,
        de + len <= 0x1_0000,
        de + len <= hl || hl + len <= de || de <= hl,
    ensures
        forward_safe(hl, de, len),
{
}

/// The same for a block in flat memory that does not wrap and whose
/// destination does not overlap its source: after `LDIR` has run BC times, BC
/// is zero and each byte of the destination is the byte that the source had.
pub proof fn law_ldir_disjoint(m: Machine)
    requires
        m.wf(),
        m.cpm_compat,
        m.read_pair(Register::BC) > 0,
        m.read_pair(Register::HL) + m.read_pair(Register::BC) <= 0x1_0000,
        m.read_pair(Register::DE) + m.read_pair(Register::BC) <= 0x1_0000,
        m.read_pair(Register::DE) + m.read_pair(Register::BC) <= m.read_pair(Register::HL)
            || m.read_pair(Register::HL) + m.read_pair(Register::BC) <= m.read_pair(Register::DE),
    ensures
        ({
            let bc = m.read_pair(Register::BC);
            let n = m.ldir_times(bc as nat);
            &&& n.read_pair(Register::BC) == 0
            &&& forall|i: int|
                0 <= i < bc ==> #[trigger] n.read8((m.read_pair(Register::DE) + i) as u16)
                    == m.read8((m.read_pair(Register::HL) + i) as u16)
        }),
{
    let hl = m.read_pair(Register::HL);
    let de = m.read_pair(Register::DE);
    let bc = m.read_pair(Register::BC);
    let n = m.ldir_times(bc as nat);
    assert(m.block_len() == bc);
    assert(m.block_reads_back(de, bc as nat)) by {
        assert forall|i: int| 0 <= i < bc implies #[trigger] m.reads_back(wrap16(de + i)) by {}
    }
    lemma_disjoint_is_safe(hl, de, bc as nat);
    law_ldir(m);
    assert forall|i: int| 0 <= i < bc implies #[trigger] n.read8((de + i) as u16) == m.read8(
        (hl + i) as u16,
    ) by {
        let to = (de + i) as u16;
        let from = (hl + i) as u16;
        assert(wrap16(de + i) == to);
        assert(wrap16(hl + i) == from);
        assert(n.byte_above(de, i) == m.byte_above(hl, i));
        assert(n.byte_above(de, i) == n.read8(to));
        assert(m.byte_above(hl, i) == m.read8(from));
    }
}

} // verus!
