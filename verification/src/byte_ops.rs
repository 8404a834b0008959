//! Pure conversions between two bytes and a big-endian 16-bit word.

use vstd::prelude::*;
use vstd::arithmetic::div_mod::lemma_fundamental_div_mod;

verus! {

/// The 16-bit word assembled from a high and a low byte, big-endian.
pub open spec fn word_of(hi: u8, lo: u8) -> u16 {
    (hi * 256 + lo) as u16
}

/// The high byte of a 16-bit word.
pub open spec fn hi_of(w: u16) -> u8 {
    (w / 256) as u8
}

/// The low byte of a 16-bit word.
pub open spec fn lo_of(w: u16) -> u8 {
    (w % 256) as u8
}

/// Combines a high and a low byte into a big-endian 16-bit word.
pub fn u8_to_u16(v1: u8, v2: u8) -> (r: u16)
    ensures
        r == word_of(v1, v2),
{
    (v1 as u16) * 256 + (v2 as u16)
}

/// Splits a 16-bit word into its high and low bytes, big-endian.
pub fn u16_to_u8(v: u16) -> (r: (u8, u8))
    ensures
        r == (hi_of(v), lo_of(v)),
{
    ((v / 256) as u8, (v % 256) as u8)
}

/// Splitting a word and combining the two parts again gives the word back.
pub proof fn lemma_combine_split(w: u16)
    ensures
        word_of(hi_of(w), lo_of(w)) == w,
{
    lemma_fundamental_div_mod(w as int, 256);
}

/// Combining two bytes and splitting the word again gives the bytes back.
pub proof fn lemma_split_combine(hi: u8, lo: u8)
    ensures
        hi_of(word_of(hi, lo)) == hi,
        lo_of(word_of(hi, lo)) == lo,
{
    let w: int = hi * 256 + lo;
    assert(w / 256 == hi && w % 256 == lo) by (nonlinear_arith)
        requires
            w == hi * 256 + lo,
            0 <= hi < 256,
            0 <= lo < 256,
    ;
}

} // verus!
