//! Facts about masks, shifts and truncation that the rest of the crate
//! leans on. Each is settled by the bit-vector solver.

use vstd::prelude::*;

verus! {

/// Masking an address with a power of two less one is taking it modulo
/// that power.
pub proof fn lemma_mirror_masks(address: u16)
    by (bit_vector)
    ensures
        address & 0x1F == address % 0x20,
        address & 0x7FF == address % 0x800,
        address & 0x3FFF == address % 0x4000,
        address & 0x7FFF == address % 0x8000,
{
}

/// How far the fields that are cut out of a byte can reach.
pub proof fn lemma_field_bounds(byte: u8, shift: u8)
    by (bit_vector)
    requires
        shift < 8,
    ensures
        byte & 0x3F < 64,
        byte & 0x03 < 4,
        (byte >> shift) & 0x01 < 2,
{
}

/// The three bytes of a color, by shifting and by dividing.
pub proof fn lemma_color_bytes(color: u32)
    by (bit_vector)
    ensures
        color as u8 == color % 256,
        (color >> 8) as u8 == (color / 256) % 256,
        (color >> 16) as u8 == (color / 65536) % 256,
{
}

/// Replacing one byte of a 16-bit word.
pub proof fn lemma_replace_byte(word: u16, byte: u8)
    by (bit_vector)
    ensures
        (word & 0x00FF) | ((byte as u16) << 8) == byte as u16 * 256 + word % 256,
        (word & 0xFF00) | (byte as u16) == (word / 256) * 256 + byte as u16,
{
}

/// The two bytes of a 16-bit word, by masking and shifting and by
/// dividing, and the word put together again.
pub proof fn lemma_word_bytes(word: u16, low: u8, high: u8)
    by (bit_vector)
    ensures
        (word & 0xFF) as u8 == word % 256,
        ((word >> 8) & 0xFF) as u8 == word / 256,
        (low as u16) | ((high as u16) << 8) == low as u16 + 256 * high as u16,
        ((high as u16) << 8) | (low as u16) == low as u16 + 256 * high as u16,
{
}

/// The address from which an indirect jump takes the high byte of its
/// target: the low byte of the pointer moves on by one and wraps, the high
/// byte of the pointer stays.
pub proof fn lemma_same_page_successor(pointer: u16, successor: u16)
    by (bit_vector)
    requires
        successor == if pointer == 0xFFFF {
            0u16
        } else {
            (pointer + 1) as u16
        },
    ensures
        (pointer & 0xFF00) | (successor & 0x00FF) == if pointer % 256 == 255 {
            (pointer - 255) as u16
        } else {
            (pointer + 1) as u16
        },
{
}

/// Bit 7 of a byte is set when the byte is 128 or more; bit 0 when it is
/// odd; bit 6 when its remainder modulo 128 is 64 or more.
pub proof fn lemma_byte_bits(byte: u8)
    by (bit_vector)
    ensures
        (byte & 0x80 != 0) == (byte >= 128),
        (byte & 0x01 != 0) == (byte % 2 == 1),
        (byte & 0x40 != 0) == (byte % 128 >= 64),
        ((byte >> 6u8) & 0x01 != 0) == (byte % 128 >= 64),
        (byte & 0x10 != 0) == (byte % 32 >= 16),
        (byte & 0x08 != 0) == (byte % 16 >= 8),
        (byte & 0x04 != 0) == (byte % 8 >= 4),
        (byte & 0x02 != 0) == (byte % 4 >= 2),
{
}

/// Shifting a byte by one place, by multiplying and dividing, and what
/// setting the bit that the shift left free adds.
pub proof fn lemma_byte_shifts(byte: u8)
    by (bit_vector)
    ensures
        byte < 128 ==> byte << 1u8 == byte * 2,
        byte >= 128 ==> byte << 1u8 == byte * 2 - 256,
        byte >> 1u8 == byte / 2,
        (byte << 1u8) | 0x01 == (byte << 1u8) + 1,
        (byte >> 1u8) | 0x80 == (byte >> 1u8) + 128,
{
}

/// Addition of two bytes and a carry in nine bits: the carry out is bit
/// 8, the result is the low byte, and the signs of the operands and of the
/// result tell whether the signed sum overflowed.
pub proof fn lemma_add_with_carry(a: u8, value: u8, carry: u16, sum: u16)
    by (bit_vector)
    requires
        carry <= 1,
        sum == a as u16 + value as u16 + carry,
    ensures
        (sum & 0x100 != 0) == (sum >= 256),
        sum as u8 == sum % 256,
        ((a ^ value) & 0x80 == 0 && (a ^ (sum as u8)) & 0x80 == 0x80) == ((a >= 128) == (value
            >= 128) && ((sum as u8) >= 128) != (a >= 128)),
{
}

/// Subtraction of the byte `value` and a borrow from the byte `a` in
/// sixteen bits: there was a borrow when bit 8 of the wrapped difference is
/// set, the result is the low byte, and the signs tell the overflow as they
/// do for addition.
pub proof fn lemma_subtract_with_borrow(a: u8, value: u8, borrow: u16, difference: u16)
    by (bit_vector)
    requires
        borrow <= 1,
        difference == (a as u16).wrapping_sub(value as u16).wrapping_sub(borrow),
    ensures
        (difference & 0x100 == 0) == (a - value - borrow >= 0),
        a - value - borrow >= 0 ==> difference as u8 == a - value - borrow,
        a - value - borrow < 0 ==> difference as u8 == 256 + a - value - borrow,
        ((a ^ value) & 0x80 == 0 && (a ^ (difference as u8)) & 0x80 == 0x80) == ((a >= 128) == (
        value >= 128) && ((difference as u8) >= 128) != (a >= 128)),
{
}

/// Clearing and setting bit 7 of a byte leaves the seven bits below it
/// alone.
pub proof fn lemma_top_bit(byte: u8)
    by (bit_vector)
    ensures
        (byte & 0x7F) & 0x80 == 0,
        byte & 0x7F == byte % 128,
        (byte | 0x80) & 0x80 != 0,
        (byte | 0x80) % 128 == byte % 128,
{
}

} // verus!
