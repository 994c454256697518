//! Bit-level facts about bytes and 16-bit words that the emulator's masks,
//! shifts and joins rely on, each proved once by bit-blasting.

use vstd::prelude::*;

verus! {

/// Masks, shifts and flag operations on one byte.
pub proof fn lemma_byte(v: u8)
    by (bit_vector)
    ensures
        (v & 0x80 != 0) == (v >= 128),
        (v & 0x01 != 0) == (v % 2 == 1),
        v & 1 == v % 2,
        v << 1u8 == (v as int * 2 % 256) as u8,
        v >> 1u8 == v / 2,
        !v == 255 - v,
        v & 0x10 & 0x20 == 0,
        v | 0x20 | 0x10 == v | 0x30,
        (v | 0x40) | 0x40 == v | 0x40,
        (v | 0x20) | 0x20 == v | 0x20,
        v & !0x80u8 & !0x40u8 & !0x20u8 == v & !(0x80u8 | 0x40u8 | 0x20u8),
        v & 0x03 < 4,
        v & 0x07 < 8,
        v & 0x0F < 16,
        (v & 0xF0) >> 4u8 < 16,
        (v & 0xF8) >> 3u8 < 0x20,
        (v & 0xC0) >> 6u8 < 4,
        (v & 0x80) >> 7u8 <= 1,
        (v >> 2u8) & 3 <= 3,
        (v & 0x10) >> 4u8 <= 1,
        ((v & 0x10) >> 4u8) ^ 1 <= 1,
        v < 4 ==> (v & 1 != 0) == (v % 2 == 1) && (v & 2 != 0) == (v >= 2),
{
}

/// A byte's top bit, low nibble and bits 2-3 as numbers.
pub proof fn lemma_byte_fields(v: u8)
    by (bit_vector)
    ensures
        (v & 0x80) >> 7u8 == v / 128,
        v & 0x0F == v % 16,
        (v >> 2u8) & 3 == (v / 4) % 4,
{
}

/// A bank number placed above an offset inside the bank: 16 KiB banks at
/// bit 14, 32 KiB banks at bit 15.
pub proof fn lemma_bank_offset(a: u32, b: u32)
    by (bit_vector)
    ensures
        a < 0x4000 && b < 16 ==> a | (b << 14u32) == b * 0x4000 + a,
        a < 0x8000 && b < 16 ==> a | ((b >> 1u32) << 15u32) == (b / 2) * 0x8000 + a,
{
}

/// A byte read as a two's complement number.
pub proof fn lemma_signed_byte(b: u8)
    by (bit_vector)
    ensures
        (b as i8) as int == if b >= 128 { b as int - 256 } else { b as int },
{
}

/// Masks and shifts on one 16-bit word.
pub proof fn lemma_word(x: u16)
    by (bit_vector)
    ensures
        x as u8 as int == x as int % 256,
        (x >> 8u16) as u8 as int == x as int / 256,
        x & 0xFF == x % 256,
        x & 0x07FF == x % 2048,
        x & 0x1FFF == x % 0x2000,
        x & 0x3FFF == x % 0x4000,
        x & 0x7FFF == x % 0x8000,
        x & 0x001F == x % 32,
        x & 0x03FF == x % 1024,
        (x >> 10u16) & 3 == (x / 1024) % 4,
        x << 1u16 == (x as int * 2 % 65536) as u16,
        (x >> 13u16) & 3 < 4,
        (x & 0x1000) >> 12u16 <= 1,
        (x & 0x03E0) >> 5u16 <= 31,
        x & 0x001F != 31 ==> x < 0xFFFF,
        x & 0x7000 != 0x7000 ==> x <= 0xEFFF,
{
}

/// Joining a high and a low byte into a word, and replacing a word's low
/// byte.
pub proof fn lemma_join(w: u16, hi: u16, lo: u16)
    by (bit_vector)
    ensures
        hi < 256 && lo < 256 ==> (hi << 8u16) | lo == hi * 256 + lo,
        hi < 256 && lo < 256 ==> lo | (hi << 8u16) == hi * 256 + lo,
        hi < 256 && lo < 256 ==> (hi << 8u16) & lo == 0,
        hi < 256 && lo < 256 ==> (hi >> 8u16) + lo == lo,
        lo < 256 ==> (w & 0xFF00) | lo == w / 256 * 256 + lo,
{
}

/// Two bits joined into a 2-bit number.
pub proof fn lemma_bit_pair(q: u8, p: u8)
    by (bit_vector)
    requires
        q <= 1,
        p <= 1,
    ensures
        (q << 1u8) | p == 2 * q + p,
{
}

/// The signed-overflow test of an 8-bit add `r = a + m (+ carry)`: both
/// inputs of one sign and the result of the other.
pub proof fn lemma_signed_overflow(a: u8, m: u8, r: u8)
    by (bit_vector)
    ensures
        (((r ^ a) & (r ^ m) & 0x80) != 0) == ((a >= 128) == (m >= 128) && (r >= 128) != (a >= 128)),
{
}

} // verus!
