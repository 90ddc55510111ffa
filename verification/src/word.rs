//! Conversions between the signed and unsigned readings of bytes and words.
//!
//! The 8086 stores every value as a bit pattern; whether it is read as
//! signed or unsigned depends on the instruction. The functions here move
//! between the readings without ever truncating silently: each states the
//! result as arithmetic modulo 2^8 or 2^16.

use vstd::prelude::*;
use vstd::arithmetic::div_mod::lemma_mod_multiples_vanish;

verus! {

/// The unsigned byte congruent to `x` modulo 2^8.
pub open spec fn u8_of(x: int) -> u8 {
    (x % 0x100) as u8
}

/// The unsigned word congruent to `x` modulo 2^16.
pub open spec fn u16_of(x: int) -> u16 {
    (x % 0x10000) as u16
}

/// The signed byte congruent to `x` modulo 2^8.
pub open spec fn i8_of(x: int) -> i8 {
    if x % 0x100 < 0x80 {
        (x % 0x100) as i8
    } else {
        (x % 0x100 - 0x100) as i8
    }
}

/// The signed word congruent to `x` modulo 2^16.
pub open spec fn i16_of(x: int) -> i16 {
    if x % 0x10000 < 0x8000 {
        (x % 0x10000) as i16
    } else {
        (x % 0x10000 - 0x10000) as i16
    }
}

/// The word whose low byte is `lo` and whose high byte is `hi`.
pub open spec fn le_word(lo: u8, hi: u8) -> u16 {
    (lo + 0x100 * hi) as u16
}

/// The double word stored little-endian in four bytes.
pub open spec fn le_dword(b0: u8, b1: u8, b2: u8, b3: u8) -> u32 {
    (b0 + 0x100 * b1 + 0x1_0000 * b2 + 0x100_0000 * b3) as u32
}

/// Reads a byte as a signed value.
pub fn byte_to_i8(b: u8) -> (r: i8)
    ensures
        r == i8_of(b as int),
        r as int == if b < 0x80 { b as int } else { b - 0x100 },
{
    if b < 0x80 {
        b as i8
    } else {
        (b as i16 - 0x100) as i8
    }
}

/// Reads a signed byte as its bit pattern.
pub fn i8_to_byte(v: i8) -> (r: u8)
    ensures
        r == u8_of(v as int),
        r as int == if v >= 0 { v as int } else { v + 0x100 },
{
    if v >= 0 {
        v as u8
    } else {
        (v as i16 + 0x100) as u8
    }
}

/// Reads a word as a signed value.
pub fn word_to_i16(w: u16) -> (r: i16)
    ensures
        r == i16_of(w as int),
        r as int == if w < 0x8000 { w as int } else { w - 0x10000 },
{
    if w < 0x8000 {
        w as i16
    } else {
        (w as i32 - 0x10000) as i16
    }
}

/// Reads a signed word as its bit pattern.
pub fn i16_to_word(v: i16) -> (r: u16)
    ensures
        r == u16_of(v as int),
        r as int == if v >= 0 { v as int } else { v + 0x10000 },
{
    if v >= 0 {
        v as u16
    } else {
        (v as i32 + 0x10000) as u16
    }
}

/// Reduces an unsigned value modulo 2^16.
pub fn wrap_word(x: u32) -> (r: u16)
    ensures
        r == u16_of(x as int),
{
    (x % 0x10000) as u16
}

/// Reduces a signed value modulo 2^16 and reads the result as signed.
pub fn wrap_i16(x: i64) -> (r: i16)
    ensures
        r == i16_of(x as int),
{
    let shifted: i128 = x as i128 + 0x1_0000_0000_0000_0000;
    let m: i128 = shifted % 0x10000;
    proof {
        lemma_mod_multiples_vanish(0x1_0000_0000_0000, x as int, 0x10000);
        assert(shifted as int == 0x10000 * 0x1_0000_0000_0000 + x);
    }
    if m < 0x8000 {
        m as i16
    } else {
        (m - 0x10000) as i16
    }
}

/// Sign-extends a byte to a word.
pub fn sign_extend(b: u8) -> (r: i16)
    ensures
        r as int == i8_of(b as int) as int,
{
    byte_to_i8(b) as i16
}

/// Builds a word from its two bytes, low byte first.
pub fn word_from_le(lo: u8, hi: u8) -> (r: u16)
    ensures
        r == le_word(lo, hi),
{
    (hi as u16) * 0x100 + lo as u16
}

/// The low byte of a word.
pub fn low_byte(w: u16) -> (r: u8)
    ensures
        r as int == w % 0x100,
{
    (w % 0x100) as u8
}

/// The high byte of a word.
pub fn high_byte(w: u16) -> (r: u8)
    ensures
        r as int == w / 0x100,
{
    (w / 0x100) as u8
}

/// Integers that differ by a multiple of 2^16 are the same word.
pub proof fn lemma_word_congruent(a: int, b: int, k: int)
    requires
        a == b + 0x10000 * k,
    ensures
        u16_of(a) == u16_of(b),
        i16_of(a) == i16_of(b),
{
    lemma_mod_multiples_vanish(k, b, 0x10000);
}

/// Integers that differ by a multiple of 2^8 are the same byte.
pub proof fn lemma_byte_congruent(a: int, b: int, k: int)
    requires
        a == b + 0x100 * k,
    ensures
        u8_of(a) == u8_of(b),
        i8_of(a) == i8_of(b),
{
    lemma_mod_multiples_vanish(k, b, 0x100);
}

/// By how many times 2^16 an integer lies above its signed word.
pub open spec fn word_excess(x: int) -> int {
    if x % 0x10000 < 0x8000 {
        x / 0x10000
    } else {
        x / 0x10000 + 1
    }
}

/// An integer is its signed word plus a multiple of 2^16, and its
/// unsigned word plus a multiple of 2^16; the signed and the unsigned
/// word of an integer are the same word.
pub proof fn lemma_word_of(x: int)
    ensures
        x == i16_of(x) + 0x10000 * word_excess(x),
        x == u16_of(x) + 0x10000 * (x / 0x10000),
        u16_of(i16_of(x) as int) == u16_of(x),
        i16_of(u16_of(x) as int) == i16_of(x),
{
    lemma_word_congruent(x, i16_of(x) as int, word_excess(x));
    lemma_word_congruent(x, u16_of(x) as int, x / 0x10000);
}

/// A signed word is its own signed word; an unsigned word its own
/// unsigned word; likewise for bytes.
pub proof fn lemma_word_of_word(v: i16, w: u16, b: i8, c: u8)
    ensures
        i16_of(v as int) == v,
        u16_of(w as int) == w,
        i8_of(b as int) == b,
        u8_of(c as int) == c,
{
}

} // verus!
