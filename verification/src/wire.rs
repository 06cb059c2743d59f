//! Byte-order helpers shared by the wire codecs: 32-bit words split into and
//! rebuilt from big-endian or little-endian byte sequences, and zero-padding
//! of payloads to the fixed 8-byte field.

use vstd::prelude::*;
use vstd::arithmetic::div_mod::lemma_fundamental_div_mod_converse;

verus! {

/// The big-endian bytes of a 32-bit word, most significant first.
pub open spec fn u32_be_bytes(x: u32) -> Seq<u8> {
    seq![
        (x / 0x100_0000) as u8,
        ((x / 0x1_0000) % 0x100) as u8,
        ((x / 0x100) % 0x100) as u8,
        (x % 0x100) as u8,
    ]
}

/// The 32-bit word read from four big-endian bytes.
pub open spec fn u32_from_be(b0: u8, b1: u8, b2: u8, b3: u8) -> u32 {
    (b0 as int * 0x100_0000 + b1 as int * 0x1_0000 + b2 as int * 0x100 + b3 as int) as u32
}

/// The little-endian bytes of a 32-bit word, least significant first.
pub open spec fn u32_le_bytes(x: u32) -> Seq<u8> {
    seq![
        (x % 0x100) as u8,
        ((x / 0x100) % 0x100) as u8,
        ((x / 0x1_0000) % 0x100) as u8,
        (x / 0x100_0000) as u8,
    ]
}

/// The 32-bit word read from four little-endian bytes.
pub open spec fn u32_from_le(b0: u8, b1: u8, b2: u8, b3: u8) -> u32 {
    (b0 as int + b1 as int * 0x100 + b2 as int * 0x1_0000 + b3 as int * 0x100_0000) as u32
}

/// `data` extended with zeroes to exactly 8 bytes.
pub open spec fn zero_pad8(data: Seq<u8>) -> Seq<u8> {
    Seq::new(8, |i: int| if i < data.len() { data[i] } else { 0u8 })
}

/// Division and remainder of `x` by `d`, recovered from a decomposition.
pub proof fn lemma_div_mod_parts(x: int, d: int, q: int, r: int)
    requires
        d > 0,
        0 <= r < d,
        x == q * d + r,
    ensures
        x / d == q,
        x % d == r,
{
    lemma_fundamental_div_mod_converse(x, d, q, r);
}

/// The base-256 decomposition of a 32-bit word: its four bytes, from least
/// significant to most significant, rebuild the word.
pub proof fn lemma_u32_byte_decomposition(x: u32)
    ensures
        (x % 0x100) as int + ((x / 0x100) % 0x100) as int * 0x100 + ((x / 0x1_0000) % 0x100) as int
            * 0x1_0000 + (x / 0x100_0000) as int * 0x100_0000 == x as int,
        x / 0x100_0000 < 0x100,
{
    let xi = x as int;
    let b0 = xi / 0x100_0000;
    let b1 = (xi / 0x1_0000) % 0x100;
    let b2 = (xi / 0x100) % 0x100;
    let b3 = xi % 0x100;
    vstd::arithmetic::div_mod::lemma_fundamental_div_mod(xi, 0x100);
    vstd::arithmetic::div_mod::lemma_fundamental_div_mod(xi / 0x100, 0x100);
    vstd::arithmetic::div_mod::lemma_fundamental_div_mod(xi / 0x1_0000, 0x100);
    vstd::arithmetic::div_mod::lemma_div_denominator(xi, 0x100, 0x100);
    vstd::arithmetic::div_mod::lemma_div_denominator(xi, 0x1_0000, 0x100);
    vstd::arithmetic::div_mod::lemma_mod_division_less_than_divisor(xi, 0x100);
    vstd::arithmetic::div_mod::lemma_mod_division_less_than_divisor(xi / 0x100, 0x100);
    vstd::arithmetic::div_mod::lemma_mod_division_less_than_divisor(xi / 0x1_0000, 0x100);
    vstd::arithmetic::div_mod::lemma_div_is_ordered(xi, 0xFFFF_FFFF, 0x100_0000);
    vstd::arithmetic::div_mod::lemma_div_pos_is_pos(xi, 0x100_0000);
    assert(xi == (xi / 0x100) * 0x100 + b3);
    assert(xi / 0x100 == (xi / 0x1_0000) * 0x100 + b2);
    assert(xi / 0x1_0000 == b0 * 0x100 + b1);
}

/// The four big-endian bytes of a word read back as the word.
pub proof fn lemma_be_round_trip(x: u32)
    ensures
        u32_from_be(
            (x / 0x100_0000) as u8,
            ((x / 0x1_0000) % 0x100) as u8,
            ((x / 0x100) % 0x100) as u8,
            (x % 0x100) as u8,
        ) == x,
{
    lemma_u32_byte_decomposition(x);
}

/// The four little-endian bytes of a word read back as the word.
pub proof fn lemma_le_round_trip(x: u32)
    ensures
        u32_from_le(
            (x % 0x100) as u8,
            ((x / 0x100) % 0x100) as u8,
            ((x / 0x1_0000) % 0x100) as u8,
            (x / 0x100_0000) as u8,
        ) == x,
{
    lemma_u32_byte_decomposition(x);
}

} // verus!
