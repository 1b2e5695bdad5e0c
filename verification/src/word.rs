//! Words as numbers: their little-endian byte form, their reading as unsigned
//! offsets, and wraparound of results that leave the 64-bit range.

use vstd::prelude::*;
use vstd::arithmetic::div_mod::{lemma_div_basics, lemma_fundamental_div_mod};
use crate::Word;

verus! {

/// The unsigned number that eight little-endian bytes spell: byte `i` weighs `256^i`.
pub open spec fn le_value(bytes: Seq<u8>) -> int
    recommends
        bytes.len() == 8,
{
    bytes[0] + bytes[1] * 0x100 + bytes[2] * 0x1_0000 + bytes[3] * 0x100_0000 + bytes[4]
        * 0x1_0000_0000 + bytes[5] * 0x100_0000_0000 + bytes[6] * 0x1_0000_0000_0000 + bytes[7]
        * 0x100_0000_0000_0000
}

/// The two's-complement reading of an unsigned 64-bit number.
pub open spec fn signed(u: int) -> Word
    recommends
        0 <= u < 0x1_0000_0000_0000_0000,
{
    if u >= 0x8000_0000_0000_0000 {
        (u - 0x1_0000_0000_0000_0000) as Word
    } else {
        u as Word
    }
}

/// The unsigned 64-bit number whose two's-complement reading is `w`.
pub open spec fn unsigned(w: Word) -> int {
    if w < 0 {
        w + 0x1_0000_0000_0000_0000
    } else {
        w as int
    }
}

/// The word that eight little-endian bytes hold.
pub open spec fn word_of_bytes(bytes: Seq<u8>) -> Word
    recommends
        bytes.len() == 8,
{
    signed(le_value(bytes))
}

/// The eight little-endian bytes of a word: byte `i` is digit `i` of the
/// word's unsigned form written in base 256.
pub open spec fn bytes_of_word(w: Word) -> Seq<u8> {
    let u = unsigned(w);
    seq![
        (u % 256) as u8,
        (u / 256 % 256) as u8,
        (u / 256 / 256 % 256) as u8,
        (u / 256 / 256 / 256 % 256) as u8,
        (u / 256 / 256 / 256 / 256 % 256) as u8,
        (u / 256 / 256 / 256 / 256 / 256 % 256) as u8,
        (u / 256 / 256 / 256 / 256 / 256 / 256 % 256) as u8,
        (u / 256 / 256 / 256 / 256 / 256 / 256 / 256 % 256) as u8,
    ]
}

/// The word that a mathematical result wraps to: the one congruent to `x` modulo `2^64`.
pub open spec fn wrap(x: int) -> Word {
    signed(x % 0x1_0000_0000_0000_0000)
}

/// Whether a mathematical result is a word as it stands.
pub open spec fn fits(x: int) -> bool {
    Word::MIN <= x <= Word::MAX
}

/// The size of a number.
pub open spec fn magnitude(x: int) -> int {
    if x < 0 {
        -x
    } else {
        x
    }
}

/// The quotient of `n` by `d`, rounded towards zero.
pub open spec fn quotient(n: int, d: int) -> int
    recommends
        d != 0,
{
    if (n < 0) == (d < 0) {
        magnitude(n) / magnitude(d)
    } else {
        -(magnitude(n) / magnitude(d))
    }
}

/// What is left of `n` when `d` times the quotient is taken away.
pub open spec fn remainder(n: int, d: int) -> int
    recommends
        d != 0,
{
    n - d * quotient(n, d)
}

/// The offset that a word denotes when it is used as an address or as an
/// instruction pointer. A word that is an offset as it stands denotes
/// itself; any other denotes its unsigned form, cut to the width of `usize`.
pub open spec fn offset_of(w: Word) -> usize {
    if 0 <= w <= usize::MAX {
        w as usize
    } else {
        (unsigned(w) % (usize::MAX + 1)) as usize
    }
}

/// The word that stands for an offset: the offset read as a signed 64-bit number.
pub open spec fn word_of_offset(offset: usize) -> Word {
    signed(offset as int)
}

/// Encoding a word and decoding the bytes gives the word back.
pub proof fn lemma_word_bytes_roundtrip(w: Word)
    ensures
        bytes_of_word(w).len() == 8,
        word_of_bytes(bytes_of_word(w)) == w,
{
}

/// An offset survives being stored as a word and read back.
pub proof fn lemma_offset_roundtrip(offset: usize)
    ensures
        offset_of(word_of_offset(offset)) == offset,
{
    assert(unsigned(signed(offset as int)) == offset);
    lemma_cut(offset as int);
}

/// A word that is an offset as it stands denotes itself.
pub proof fn lemma_offset_of_small(w: Word)
    requires
        0 <= w <= usize::MAX,
    ensures
        offset_of(w) == w,
{
    lemma_cut(w as int);
}

/// What cutting to the width of `usize` does, for either width that a
/// `usize` may have.
proof fn lemma_cut(u: int)
    ensures
        usize::MAX == 0xFFFF_FFFF ==> u % (usize::MAX + 1) == u % 0x1_0000_0000,
        usize::MAX != 0xFFFF_FFFF ==> u % (usize::MAX + 1) == u % 0x1_0000_0000_0000_0000,
        0 <= u <= usize::MAX ==> u % (usize::MAX + 1) == u,
{
    assert(usize::MAX == 0xFFFF_FFFF || usize::MAX == 0xFFFF_FFFF_FFFF_FFFF);
    if usize::MAX == 0xFFFF_FFFF {
        assert(usize::MAX + 1 == 0x1_0000_0000);
    } else {
        assert(usize::MAX + 1 == 0x1_0000_0000_0000_0000);
    }
}

/// Decodes the word held by the eight bytes of `bytes` that start at `at`.
pub fn decode_word(bytes: &[u8], at: usize) -> (w: Word)
    requires
        at + 8 <= bytes@.len(),
    ensures
        w == word_of_bytes(bytes@.subrange(at as int, at + 8)),
{
    let low: u64 = bytes[at] as u64 + bytes[at + 1] as u64 * 0x100 + bytes[at + 2] as u64
        * 0x1_0000 + bytes[at + 3] as u64 * 0x100_0000 + bytes[at + 4] as u64 * 0x1_0000_0000
        + bytes[at + 5] as u64 * 0x100_0000_0000 + bytes[at + 6] as u64 * 0x1_0000_0000_0000;
    let top: u8 = bytes[at + 7];
    if top >= 128 {
        low as i64 + (top as i64 - 256) * 0x100_0000_0000_0000
    } else {
        (low + top as u64 * 0x100_0000_0000_0000) as i64
    }
}

/// Encodes a word as its eight little-endian bytes.
pub fn encode_word(w: Word) -> (bytes: [u8; 8])
    ensures
        bytes@ == bytes_of_word(w),
{
    let u: u64 = if w < 0 {
        ((w + i64::MAX) + 1) as u64 + 0x8000_0000_0000_0000
    } else {
        w as u64
    };
    let u1: u64 = u / 256;
    let u2: u64 = u1 / 256;
    let u3: u64 = u2 / 256;
    let u4: u64 = u3 / 256;
    let u5: u64 = u4 / 256;
    let u6: u64 = u5 / 256;
    let u7: u64 = u6 / 256;
    [
        (u % 256) as u8,
        (u1 % 256) as u8,
        (u2 % 256) as u8,
        (u3 % 256) as u8,
        (u4 % 256) as u8,
        (u5 % 256) as u8,
        (u6 % 256) as u8,
        (u7 % 256) as u8,
    ]
}

/// The remainder is what the division of the magnitudes leaves, with the
/// sign of the dividend; so it is smaller in size than the divisor.
pub proof fn lemma_remainder(n: int, d: int)
    requires
        d != 0,
    ensures
        remainder(n, d) == if n < 0 {
            -(magnitude(n) % magnitude(d))
        } else {
            magnitude(n) % magnitude(d)
        },
        magnitude(remainder(n, d)) < magnitude(d),
{
    let a = magnitude(n);
    let b = magnitude(d);
    let k = a / b;
    lemma_fundamental_div_mod(a, b);
    assert(d * k == if d < 0 { -(b * k) } else { b * k }) by (nonlinear_arith)
        requires
            b == if d < 0 { -d } else { d },
    ;
    assert(d * (-k) == -(d * k)) by (nonlinear_arith);
}

/// The sum of two words, wrapped, and whether it overflowed.
pub fn overflowing_add(a: Word, b: Word) -> (r: (Word, bool))
    ensures
        r == (wrap(a + b), !fits(a + b)),
{
    match a.checked_add(b) {
        Some(sum) => (sum, false),
        None => (a.wrapping_add(b), true),
    }
}

/// The difference of two words, wrapped, and whether it overflowed.
pub fn overflowing_sub(a: Word, b: Word) -> (r: (Word, bool))
    ensures
        r == (wrap(a - b), !fits(a - b)),
{
    match a.checked_sub(b) {
        Some(difference) => (difference, false),
        None => (a.wrapping_sub(b), true),
    }
}

/// The product of two words, wrapped, and whether it overflowed.
pub fn overflowing_mul(a: Word, b: Word) -> (r: (Word, bool))
    ensures
        r == (wrap(a * b), !fits(a * b)),
{
    match a.checked_mul(b) {
        Some(product) => (product, false),
        None => (a.wrapping_mul(b), true),
    }
}

/// The quotient of two words, rounded towards zero and wrapped.
pub fn wrapping_div(n: Word, d: Word) -> (q: Word)
    requires
        d != 0,
    ensures
        q == wrap(quotient(n as int, d as int)),
{
    proof {
        lemma_div_basics(d as int);
        lemma_div_basics(-d);
    }
    match n.checked_div(d) {
        Some(q) => q,
        None => Word::MIN,
    }
}

/// The remainder of two words, with the sign of the dividend.
pub fn wrapping_rem(n: Word, d: Word) -> (r: Word)
    requires
        d != 0,
    ensures
        r == remainder(n as int, d as int),
{
    proof {
        lemma_remainder(n as int, d as int);
    }
    match n.checked_rem(d) {
        Some(r) => r,
        None => 0,
    }
}

/// Cuts a word to an offset.
pub fn to_offset(w: Word) -> (offset: usize)
    ensures
        offset == offset_of(w),
{
    proof {
        assert(w as u64 == if w < 0 {
            w + 0x1_0000_0000_0000_0000
        } else {
            w as int
        }) by (bit_vector);
        assert(w as usize == (w as u64) as usize) by (bit_vector);
        let x = w as u64;
        assert(x as usize == x % 0x1_0000_0000 || x as usize == x) by (bit_vector);
        lemma_cut(x as int);
    }
    #[verifier::truncate]
    (w as usize)
}

/// Stores an offset in a word.
pub fn from_offset(offset: usize) -> (w: Word)
    ensures
        w == word_of_offset(offset),
{
    proof {
        let x = offset as u64;
        assert(offset as Word == x as Word) by (bit_vector)
            requires
                x == offset as u64,
        ;
        assert(x as Word == signed(x as int)) by (bit_vector);
    }
    #[verifier::truncate]
    (offset as Word)
}

} // verus!
