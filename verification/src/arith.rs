//! Modular 8-bit and 16-bit arithmetic.
//!
//! Registers wrap modulo 256 and addresses wrap modulo 65536; overflow is
//! intended behaviour, never an error. The spec functions here state the
//! arithmetic directly as remainders, and the lemmas connect them to the
//! `wrapping_*` operations the executable code uses.

use vstd::prelude::*;

verus! {

/// 8-bit addition, wrapping modulo 256.
pub open spec fn add8(x: u8, y: u8) -> u8 {
    ((x + y) % 256) as u8
}

/// 16-bit addition, wrapping modulo 65536.
pub open spec fn add16(x: u16, y: u16) -> u16 {
    ((x + y) % 0x10000) as u16
}

/// 8-bit subtraction, wrapping modulo 256.
pub open spec fn sub8(x: u8, y: u8) -> u8 {
    ((x + 256 - y) % 256) as u8
}

/// 16-bit subtraction, wrapping modulo 65536.
pub open spec fn sub16(x: u16, y: u16) -> u16 {
    ((x + 0x10000 - y) % 0x10000) as u16
}

/// A 16-bit word assembled from a high and a low byte.
pub open spec fn word(hi: u8, lo: u8) -> u16 {
    (hi * 256 + lo) as u16
}

/// The low byte of a 16-bit word.
pub open spec fn low_byte(w: u16) -> u8 {
    (w % 256) as u8
}

/// The high byte of a 16-bit word.
pub open spec fn high_byte(w: u16) -> u8 {
    (w / 256) as u8
}

/// Splitting a word into bytes and reassembling them gives the word back.
pub proof fn lemma_word_split_roundtrip(w: u16)
    ensures
        word(high_byte(w), low_byte(w)) == w,
{
}

/// Two wrapping 16-bit additions collapse into one.
pub proof fn lemma_add16_add(a: u16, b: u16, c: u16)
    requires
        b + c <= u16::MAX,
    ensures
        add16(add16(a, b), c) == add16(a, (b + c) as u16),
{
}

/// Subtracting after a larger wrapping addition shortens the addition.
pub proof fn lemma_add16_sub(a: u16, b: u16, c: u16)
    requires
        c <= b,
    ensures
        sub16(add16(a, b), c) == add16(a, (b - c) as u16),
{
}

/// Adding back part of what a wrapping 8-bit subtraction took away
/// shortens the subtraction.
pub proof fn lemma_sub8_add(a: u8, b: u8, c: u8)
    requires
        c <= b,
    ensures
        add8(sub8(a, b), c) == sub8(a, (b - c) as u8),
{
}

/// Wrapping 8-bit subtraction by a small nonzero amount moves the
/// value: within a 256-cell cycle, stepping less than a full turn
/// never returns to the start.
pub proof fn lemma_sub8_changes(a: u8, b: u8)
    requires
        0 < b,
    ensures
        sub8(a, b) != a,
{
}

pub fn wrap_add8(x: u8, y: u8) -> (r: u8)
    ensures
        r == add8(x, y),
{
    x.wrapping_add(y)
}

pub fn wrap_add16(x: u16, y: u16) -> (r: u16)
    ensures
        r == add16(x, y),
{
    x.wrapping_add(y)
}

pub fn wrap_sub8(x: u8, y: u8) -> (r: u8)
    ensures
        r == sub8(x, y),
{
    x.wrapping_sub(y)
}

pub fn wrap_sub16(x: u16, y: u16) -> (r: u16)
    ensures
        r == sub16(x, y),
{
    x.wrapping_sub(y)
}

pub fn word_of(hi: u8, lo: u8) -> (r: u16)
    ensures
        r == word(hi, lo),
{
    (hi as u16) * 256 + (lo as u16)
}

pub fn low_of(w: u16) -> (r: u8)
    ensures
        r == low_byte(w),
{
    (w % 256) as u8
}

pub fn high_of(w: u16) -> (r: u8)
    ensures
        r == high_byte(w),
{
    (w / 256) as u8
}

} // verus!
