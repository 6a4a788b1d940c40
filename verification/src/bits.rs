//! Bytes and words: bits, halves, signed readings and reduction modulo
//! 256 and 65536.

use vstd::prelude::*;

verus! {

/// The byte in which only bit `i` is set, for `i` from 0 to 7.
pub open spec fn mask(i: u8) -> u8 {
    if i == 0 {
        0x01
    } else if i == 1 {
        0x02
    } else if i == 2 {
        0x04
    } else if i == 3 {
        0x08
    } else if i == 4 {
        0x10
    } else if i == 5 {
        0x20
    } else if i == 6 {
        0x40
    } else {
        0x80
    }
}

/// Whether bit `i` (0 is the least significant) of `v` is set.
pub open spec fn bit_of(v: u8, i: u8) -> bool {
    v & mask(i) != 0
}

/// 1 if bit `i` of `v` is set, else 0.
pub open spec fn bit_value(v: u8, i: u8) -> int {
    if bit_of(v, i) {
        1
    } else {
        0
    }
}

/// The 16-bit word with high byte `hi` and low byte `lo`.
pub open spec fn word(hi: u8, lo: u8) -> u16 {
    (hi as int * 256 + lo as int) as u16
}

/// The high byte of a word.
pub open spec fn high(w: u16) -> u8 {
    (w as int / 256) as u8
}

/// The low byte of a word.
pub open spec fn low(w: u16) -> u8 {
    (w as int % 256) as u8
}

/// A byte read as a two's complement number.
pub open spec fn signed8(v: u8) -> int {
    if v >= 128 {
        v as int - 256
    } else {
        v as int
    }
}

/// A word read as a two's complement number.
pub open spec fn signed16(w: u16) -> int {
    if w >= 0x8000 {
        w as int - 0x1_0000
    } else {
        w as int
    }
}

/// `x` reduced to a byte, modulo 256.
pub open spec fn wrap8(x: int) -> u8 {
    (x % 256) as u8
}

/// `x` reduced to a word, modulo 65536.
pub open spec fn wrap16(x: int) -> u16 {
    (x % 0x1_0000) as u16
}

/// `base` moved by the signed displacement that the byte `d` encodes, modulo 65536.
pub open spec fn displace(base: u16, d: u8) -> u16 {
    wrap16(base as int + signed8(d))
}

/// Reduction modulo 256 has period 256 and leaves bytes alone; the wrapping
/// operations of `u8` are addition and subtraction followed by it.
pub proof fn lemma_wrap8(x: int, v: u8, w: u8)
    ensures
        wrap8(x + 256) == wrap8(x),
        wrap8(x - 256) == wrap8(x),
        wrap8(v as int) == v,
        v.wrapping_add(w) == wrap8(v + w),
        v.wrapping_sub(w) == wrap8(v - w),
{
}

/// Reduction modulo 65536 has period 65536 and leaves words alone; the
/// wrapping operations of `u16` are addition and subtraction followed by it.
pub proof fn lemma_wrap16(x: int, v: u16, w: u16)
    ensures
        wrap16(x + 0x1_0000) == wrap16(x),
        wrap16(x - 0x1_0000) == wrap16(x),
        wrap16(v as int) == v,
        v.wrapping_add(w) == wrap16(v + w),
        v.wrapping_sub(w) == wrap16(v - w),
{
}

/// The number of set bits of a byte.
pub open spec fn popcount(v: u8) -> int {
    bit_value(v, 0) + bit_value(v, 1) + bit_value(v, 2) + bit_value(v, 3) + bit_value(v, 4)
        + bit_value(v, 5) + bit_value(v, 6) + bit_value(v, 7)
}

/// Puts a word together from its high and its low byte.
pub fn make_word(hi: u8, lo: u8) -> (w: u16)
    ensures
        w == word(hi, lo),
        high(w) == hi,
        low(w) == lo,
{
    let w: u16 = ((hi as u16) << 8) | (lo as u16);
    assert(((hi as u16) << 8) | (lo as u16) == (hi as u16) * 256 + (lo as u16)) by (bit_vector);
    w
}

/// The high byte of a word.
pub fn high_byte(w: u16) -> (b: u8)
    ensures
        b == high(w),
{
    assert((w >> 8) == w / 256 && (w >> 8) < 256) by (bit_vector);
    (w >> 8) as u8
}

/// The low byte of a word.
pub fn low_byte(w: u16) -> (b: u8)
    ensures
        b == low(w),
{
    assert((w & 0xFF) == w % 256) by (bit_vector);
    (w & 0xFF) as u8
}

/// Adds the displacement encoded by `d` (a two's complement byte) to `base`.
pub fn offset(base: u16, d: u8) -> (r: u16)
    ensures
        r == displace(base, d),
{
    if d >= 128 {
        let back: u16 = 256 - (d as u16);
        base.wrapping_sub(back)
    } else {
        base.wrapping_add(d as u16)
    }
}

} // verus!
