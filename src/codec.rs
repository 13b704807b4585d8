//! Conversion between raw 16-bit register words and engineering values.
//!
//! A 32-bit value spans two consecutive registers in big-endian word order:
//! the register at the lower address holds the high half. The library
//! carries IEEE-754 values as their bit patterns (`u32`); reinterpreting a
//! pattern as a float is left to the caller (`f32::from_bits`).

use vstd::prelude::*;

verus! {

/// The 32-bit pattern made of a high and a low register word.
pub open spec fn joined(hi: u16, lo: u16) -> u32 {
    (hi as int * 0x10000 + lo as int) as u32
}

/// The high register word of a 32-bit pattern.
pub open spec fn high_word(bits: u32) -> u16 {
    (bits as int / 0x10000) as u16
}

/// The low register word of a 32-bit pattern.
pub open spec fn low_word(bits: u32) -> u16 {
    (bits as int % 0x10000) as u16
}

/// Whether flag `bit` of `word` is set; no flag exists at 16 and above.
pub open spec fn flag(word: u16, bit: u32) -> bool {
    bit < 16 && (word >> bit) & 1 == 1
}

/// Concatenates two register words, high word first, into one 32-bit pattern.
pub fn words_to_bits(hi: u16, lo: u16) -> (r: u32)
    ensures
        r == joined(hi, lo),
        r as int == hi as int * 0x10000 + lo as int,
{
    let r = ((hi as u32) << 16) | (lo as u32);
    assert(((hi as u32) << 16) | (lo as u32) == hi as u32 * 0x10000 + lo as u32) by (bit_vector);
    r
}

/// Splits a 32-bit pattern into its register words, high word first.
pub fn bits_to_words(bits: u32) -> (r: (u16, u16))
    ensures
        r.0 == high_word(bits),
        r.1 == low_word(bits),
        bits as int == r.0 as int * 0x10000 + r.1 as int,
{
    let hi = (bits >> 16) as u16;
    let lo = (bits & 0xFFFF) as u16;
    assert((bits >> 16) as u16 == bits / 0x10000) by (bit_vector);
    assert((bits & 0xFFFF) as u16 == bits % 0x10000) by (bit_vector);
    (hi, lo)
}

/// Tests flag `bit` of a register word; an index of 16 or more is never set.
pub fn bit_is_set(word: u16, bit: u32) -> (r: bool)
    ensures
        r == flag(word, bit),
        bit >= 16 ==> !r,
{
    if bit < 16 {
        let shifted = word >> bit;
        (shifted & 1) == 1
    } else {
        false
    }
}

/// `byte` with flag `bit` set to `value` and every other flag kept.
pub open spec fn with_flag(byte: u8, bit: u8, value: bool) -> u8 {
    if value {
        byte | (1u8 << bit)
    } else {
        byte & !(1u8 << bit)
    }
}

/// Sets or clears one flag of a byte, as an S7 boolean field is written.
pub fn set_flag(byte: u8, bit: u8, value: bool) -> (r: u8)
    requires
        bit < 8,
    ensures
        r == with_flag(byte, bit, value),
        (r >> bit) & 1 == (if value { 1u8 } else { 0u8 }),
        forall|j: u8| j < 8 && j != bit ==> #[trigger] ((r >> j) & 1) == (byte >> j) & 1,
{
    let r = if value {
        byte | (1u8 << bit)
    } else {
        byte & !(1u8 << bit)
    };
    assert((r >> bit) & 1 == (if value { 1u8 } else { 0u8 })) by (bit_vector)
        requires
            bit < 8,
            r == (if value { byte | (1u8 << bit) } else { byte & !(1u8 << bit) }),
    ;
    assert forall|j: u8| j < 8 && j != bit implies #[trigger] ((r >> j) & 1) == (byte >> j) & 1 by {
        assert(((r >> j) & 1) == (byte >> j) & 1) by (bit_vector)
            requires
                bit < 8,
                j < 8,
                j != bit,
                r == (if value { byte | (1u8 << bit) } else { byte & !(1u8 << bit) }),
        ;
    }
    r
}

/// Joining two register words and splitting the pattern gives the same two
/// words back, high word first.
pub proof fn lemma_word_round_trip(hi: u16, lo: u16)
    ensures
        high_word(joined(hi, lo)) == hi,
        low_word(joined(hi, lo)) == lo,
{
}

/// Splitting a pattern and joining its words gives the pattern back.
pub proof fn lemma_bits_round_trip(bits: u32)
    ensures
        joined(high_word(bits), low_word(bits)) == bits,
{
}

/// Decodes a register block into 32-bit patterns, one for each full pair
/// of consecutive words; an odd trailing word is left out.
pub fn block_to_bits(block: &Vec<u16>) -> (r: Vec<u32>)
    ensures
        r@.len() == block@.len() / 2,
        forall|i: int|
            0 <= i < r@.len() ==> #[trigger] r@[i] == joined(block@[2 * i], block@[2 * i + 1]),
{
    let mut r: Vec<u32> = Vec::new();
    let mut j: usize = 0;
    while j + 1 < block.len()
        invariant
            j == 2 * r@.len(),
            j <= block@.len(),
            forall|k: int| 0 <= k < r@.len() ==> #[trigger] r@[k] == joined(block@[2 * k], block@[2 * k + 1]),
        decreases block@.len() - j,
    {
        let bits = words_to_bits(block[j], block[j + 1]);
        r.push(bits);
        j += 2;
    }
    r
}

/// Number of float tags in one log record.
pub const LOGGED_TAG_COUNT: usize = 16;

/// The patterns a log record holds: the first sixteen word pairs of a
/// block. A shorter block gives no record.
pub fn log_record(block: &Vec<u16>) -> (r: Option<Vec<u32>>)
    ensures
        r is Some <==> block@.len() >= 2 * LOGGED_TAG_COUNT,
        r matches Some(v) ==> v@.len() == LOGGED_TAG_COUNT && forall|i: int|
            0 <= i < LOGGED_TAG_COUNT ==> #[trigger] v@[i] == joined(block@[2 * i], block@[2 * i + 1]),
{
    if block.len() < 2 * LOGGED_TAG_COUNT {
        return None;
    }
    let mut v: Vec<u32> = Vec::with_capacity(LOGGED_TAG_COUNT);
    let mut i: usize = 0;
    while i < LOGGED_TAG_COUNT
        invariant
            block@.len() >= 2 * LOGGED_TAG_COUNT,
            i <= LOGGED_TAG_COUNT,
            v@.len() == i,
            forall|k: int| 0 <= k < i ==> #[trigger] v@[k] == joined(block@[2 * k], block@[2 * k + 1]),
        decreases LOGGED_TAG_COUNT - i,
    {
        v.push(words_to_bits(block[2 * i], block[2 * i + 1]));
        i += 1;
    }
    Some(v)
}

/// Spreads coil states over register words: 1 for a set coil, 0 otherwise.
pub fn coils_to_words(coils: &Vec<bool>) -> (r: Vec<u16>)
    ensures
        r@.len() == coils@.len(),
        forall|i: int| 0 <= i < r@.len() ==> #[trigger] r@[i] == (if coils@[i] { 1u16 } else { 0u16 }),
{
    let mut r: Vec<u16> = Vec::with_capacity(coils.len());
    let mut i: usize = 0;
    while i < coils.len()
        invariant
            i <= coils@.len(),
            r@.len() == i,
            forall|k: int| 0 <= k < i ==> #[trigger] r@[k] == (if coils@[k] { 1u16 } else { 0u16 }),
        decreases coils@.len() - i,
    {
        if coils[i] {
            r.push(1);
        } else {
            r.push(0);
        }
        i += 1;
    }
    r
}

} // verus!
