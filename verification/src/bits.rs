//! Bytes, words and single bits: the arithmetic the rest of the machine is
//! described in.

use vstd::prelude::*;

verus! {

/// The low eight bits of a word.
pub open spec fn low_byte(w: u16) -> u8 {
    (w % 256) as u8
}

/// The high eight bits of a word.
pub open spec fn high_byte(w: u16) -> u8 {
    (w / 256) as u8
}

/// The word whose high byte is `high` and whose low byte is `low`.
pub open spec fn word(high: u8, low: u8) -> u16 {
    (high * 256 + low) as u16
}

/// `x` reduced to a byte, as an 8-bit register holds it.
pub open spec fn wrap8(x: int) -> u8 {
    (x % 256) as u8
}

/// `x` reduced to a word, as a 16-bit register holds it.
pub open spec fn wrap16(x: int) -> u16 {
    (x % 65536) as u16
}

/// The number of bits of `v` that are set.
pub open spec fn ones(v: u8) -> int {
    v % 2 + (v / 2) % 2 + (v / 4) % 2 + (v / 8) % 2 + (v / 16) % 2 + (v / 32) % 2 + (v / 64) % 2
        + (v / 128) % 2
}

/// Whether an even number of bits of `v` are set.
#[verifier::opaque]
pub open spec fn even_parity(v: u8) -> bool {
    ones(v) % 2 == 0
}

/// Whether bit `i` of `v` is set; bit 0 is the least significant.
pub open spec fn bit_is_set(v: u8, i: u8) -> bool {
    (v >> i) & 1 == 1
}

/// `v` with bit `i` set or cleared and every other bit as it was.
pub open spec fn with_bit(v: u8, i: u8, on: bool) -> u8 {
    if on {
        v | (1u8 << i)
    } else {
        v & !(1u8 << i)
    }
}

/// The low eight bits of a word.
pub fn get_low_byte(w: u16) -> (r: u8)
    ensures
        r == low_byte(w),
{
    assert(w & 0xff == w % 256) by (bit_vector);
    (w & 0xff) as u8
}

/// The high eight bits of a word.
pub fn get_high_byte(w: u16) -> (r: u8)
    ensures
        r == high_byte(w),
{
    assert(w >> 8 == w / 256) by (bit_vector);
    (w >> 8) as u8
}

/// The word made of a high and a low byte.
pub fn make_word(high: u8, low: u8) -> (r: u16)
    ensures
        r == word(high, low),
        high_byte(r) == high,
        low_byte(r) == low,
{
    let h: u16 = high as u16;
    let l: u16 = low as u16;
    assert(h < 256 && l < 256 ==> (h << 8) | l == h * 256 + l) by (bit_vector);
    (h << 8) | l
}

/// Whether an even number of bits of `v` are set.
pub fn has_even_parity(v: u8) -> (r: bool)
    ensures
        r == even_parity(v),
{
    let a: u8 = v ^ (v >> 4);
    let b: u8 = a ^ (a >> 2);
    let c: u8 = b ^ (b >> 1);
    assert(({
        let a = v ^ (v >> 4);
        let b = a ^ (a >> 2);
        let c = b ^ (b >> 1);
        c & 1 == 0
    }) == (ones(v) % 2 == 0)) by (bit_vector);
    reveal(even_parity);
    c & 1 == 0
}

/// Whether bit `i` of `v` is set.
pub fn test_bit(v: u8, i: u8) -> (r: bool)
    requires
        i < 8,
    ensures
        r == bit_is_set(v, i),
{
    (v >> i) & 1 == 1
}

/// `v` with bit `i` set or cleared.
pub fn set_bit(v: u8, i: u8, on: bool) -> (r: u8)
    requires
        i < 8,
    ensures
        r == with_bit(v, i, on),
{
    if on {
        v | (1u8 << i)
    } else {
        v & !(1u8 << i)
    }
}

/// A word is made of its two bytes.
pub proof fn lemma_word_of_bytes(w: u16)
    ensures
        word(high_byte(w), low_byte(w)) == w,
{
}

/// Setting or clearing a bit gives that bit the new value and leaves the
/// seven other bits of the byte as they were.
pub proof fn lemma_with_bit(v: u8, i: u8, on: bool, j: u8)
    requires
        i < 8,
        j < 8,
    ensures
        bit_is_set(with_bit(v, i, on), j) == (if j == i {
            on
        } else {
            bit_is_set(v, j)
        }),
{
    assert(i < 8 && j < 8 ==> (((v | (1u8 << i)) >> j) & 1 == 1) == (if j == i {
        true
    } else {
        (v >> j) & 1 == 1
    })) by (bit_vector);
    assert(i < 8 && j < 8 ==> (((v & !(1u8 << i)) >> j) & 1 == 1) == (if j == i {
        false
    } else {
        (v >> j) & 1 == 1
    })) by (bit_vector);
}

/// Clearing a bit that was just set gives the byte with that bit clear:
/// the setting leaves no trace.
pub proof fn lemma_set_then_clear(v: u8, i: u8)
    requires
        i < 8,
    ensures
        with_bit(with_bit(v, i, true), i, false) == with_bit(v, i, false),
{
    assert(i < 8 ==> (v | (1u8 << i)) & !(1u8 << i) == v & !(1u8 << i)) by (bit_vector);
}

} // verus!
