//! Facts that tie the arithmetic model of bytes and words to the bitwise
//! operators. Each is discharged by the bit-vector solver.

use vstd::prelude::*;

verus! {

/// Masking a word with a low-bit mask is the remainder, shifting it right
/// is the quotient, for the boundaries that the register file uses.
pub proof fn lemma_mask_is_mod_u16(v: u16)
    by (bit_vector)
    ensures
        v & 0xFF == v % 256,
        v >> 8 == v / 256,
        v & 0xFFF == v % 4096,
        v & 0xFFF0 == v - v % 16,
        v & 0xFFFF == v,
{
}

/// Masking a byte with a nibble mask is the remainder, or what is left of
/// the byte without it.
pub proof fn lemma_mask_is_mod_u8(v: u8)
    by (bit_vector)
    ensures
        v & 0x0F == v % 16,
        v & 0xF0 == v - v % 16,
        (v & 0xF0) & 0x0F == 0,
        !v == 255 - v,
{
}

/// Testing one bit of a byte is testing the parity of a quotient.
pub proof fn lemma_bit_test_u8(v: u8)
    by (bit_vector)
    ensures
        (v & 0x01 != 0) == (v % 2 == 1),
        (v & 0x02 != 0) == ((v / 2) % 2 == 1),
        (v & 0x04 != 0) == ((v / 4) % 2 == 1),
        (v & 0x08 != 0) == ((v / 8) % 2 == 1),
        (v & 0x10 != 0) == ((v / 16) % 2 == 1),
        (v & 0x20 != 0) == ((v / 32) % 2 == 1),
        (v & 0x40 != 0) == ((v / 64) % 2 == 1),
        (v & 0x80 != 0) == (v >= 128),
{
}

/// Setting, clearing and toggling one of the four flag bits of a byte.
pub proof fn lemma_flag_bit_update(f: u8)
    by (bit_vector)
    ensures
        f | 0x80 == (if f >= 128 { f } else { (f + 128) as u8 }),
        f | 0x40 == (if (f / 64) % 2 == 1 { f } else { (f + 64) as u8 }),
        f | 0x20 == (if (f / 32) % 2 == 1 { f } else { (f + 32) as u8 }),
        f | 0x10 == (if (f / 16) % 2 == 1 { f } else { (f + 16) as u8 }),
        f & !0x80u8 == (if f >= 128 { (f - 128) as u8 } else { f }),
        f & !0x40u8 == (if (f / 64) % 2 == 1 { (f - 64) as u8 } else { f }),
        f & !0x20u8 == (if (f / 32) % 2 == 1 { (f - 32) as u8 } else { f }),
        f & !0x10u8 == (if (f / 16) % 2 == 1 { (f - 16) as u8 } else { f }),
        f ^ 0x80 == (if f >= 128 { (f - 128) as u8 } else { (f + 128) as u8 }),
        f ^ 0x40 == (if (f / 64) % 2 == 1 { (f - 64) as u8 } else { (f + 64) as u8 }),
        f ^ 0x20 == (if (f / 32) % 2 == 1 { (f - 32) as u8 } else { (f + 32) as u8 }),
        f ^ 0x10 == (if (f / 16) % 2 == 1 { (f - 16) as u8 } else { (f + 16) as u8 }),
{
}

/// The low nibble of a word by its mask, and a byte by the byte mask.
pub proof fn lemma_low_nibble_of_word(x: u16, b: u8)
    by (bit_vector)
    ensures
        x & 0x0F == x % 16,
        b & 0xFF == b,
{
}

/// Rotating and shifting a byte by one bit, and swapping its nibbles, as
/// arithmetic.
pub proof fn lemma_rotate_bits(v: u8)
    by (bit_vector)
    ensures
        v << 1 == (if v >= 128 { (v * 2 - 256) as u8 } else { (v * 2) as u8 }),
        v >> 1 == v / 2,
        v >> 7 == v / 128,
        v << 7 == (if v % 2 == 1 { 128u8 } else { 0u8 }),
        v >> 4 == v / 16,
        v << 4 == ((v % 16) * 16) as u8,
        (v << 1) | (v >> 7) == (v << 1) + (v >> 7),
        (v >> 1) | (v << 7) == (v >> 1) + (v << 7),
        (v << 1) | 1u8 == (v << 1) + 1,
        (v << 1) | 0u8 == v << 1,
        (v >> 1) | 0x80u8 == (v >> 1) + 128,
        (v >> 1) | 0u8 == v >> 1,
        (v >> 1) | (v & 0x80) == (v >> 1) + (if v >= 128 { 128u8 } else { 0u8 }),
        (v << 4) | (v >> 4) == (v << 4) + (v >> 4),
{
}

/// A bit that was set is set, and a bit that was cleared is clear.
pub proof fn lemma_set_bit_is_set(v: u8)
    by (bit_vector)
    ensures
        (v | 0x01) & 0x01 != 0,
        (v | 0x02) & 0x02 != 0,
        (v | 0x04) & 0x04 != 0,
        (v | 0x08) & 0x08 != 0,
        (v | 0x10) & 0x10 != 0,
        (v & !0x01u8) & 0x01 == 0,
        (v & !0x02u8) & 0x02 == 0,
        (v & !0x04u8) & 0x04 == 0,
        (v & !0x08u8) & 0x08 == 0,
        (v & !0x10u8) & 0x10 == 0,
{
}

} // verus!
