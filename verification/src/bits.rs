//! Facts that tie the bit operations of the executable code to the arithmetic in
//! which the contracts are written.

use vstd::prelude::*;

verus! {

/// The low byte, the high byte and the sign bit of a 16-bit value.
pub proof fn lemma_u16_bytes(x: u16)
    by (bit_vector)
    ensures
        x & 0xff == x % 256,
        (x & 0xff) as u8 == x % 256,
        x as u8 == x % 256,
        x >> 8 == x / 256,
        (x >> 8) as u8 == x / 256,
        (x & 0x80 != 0) == (x % 256 >= 128),
        x & 0xf == x % 16,
        (x >> 4) & 0xf == (x / 16) % 16,
{
}

/// Two bytes side by side make the 16-bit value `high * 256 + low`.
pub proof fn lemma_join(high: u8, low: u8)
    by (bit_vector)
    ensures
        ((high as u16) << 8) | (low as u16) == high * 256 + low,
{
}

/// A high part and a low nibble side by side.
pub proof fn lemma_join_nibbles(most: u16, least: u16)
    by (bit_vector)
    requires
        most < 32,
        least < 16,
    ensures
        (most << 4) | least == most * 16 + least,
{
}

/// The exclusive or of two nibbles is a nibble.
pub proof fn lemma_nibble_xor(x: u8, y: u8)
    by (bit_vector)
    ensures
        (x & 0xf) ^ (y & 0xf) <= 15,
{
}

/// The nibbles and the end bits of a byte.
pub proof fn lemma_u8_parts(x: u8)
    by (bit_vector)
    ensures
        x & 0xf == x % 16,
        x >> 4 == x / 16,
        (x & 0x80 != 0) == (x >= 128),
        (x & 0x01 != 0) == (x % 2 == 1),
        !x == 255 - x,
        x & 0x38 == ((x / 8) % 8) * 8,
{
}

/// The three fields of an opcode byte.
pub proof fn lemma_fields(x: u8)
    by (bit_vector)
    ensures
        x & 0x07 == x % 8,
        (x >> 3) & 0x07 == (x / 8) % 8,
        x >> 6 == x / 64,
{
}

/// Rotating a byte one place to the left, around itself or through a carry bit.
pub proof fn lemma_rotate_left(x: u8, carry: u8)
    by (bit_vector)
    requires
        carry <= 1,
    ensures
        (x << 1) | (x >> 7) == (x * 2) % 256 + (x / 128) * 1,
        (x << 1) | carry == (x * 2) % 256 + carry * 1,
{
}

/// Rotating a byte one place to the right, around itself or through a carry bit.
pub proof fn lemma_rotate_right(x: u8, carry: u8)
    by (bit_vector)
    requires
        carry <= 1,
    ensures
        (x >> 1) | (x << 7) == (x / 2) * 1 + (x % 2) * 128,
        (x >> 1) | (carry << 7) == (x / 2) * 1 + carry * 128,
{
}

/// Folding a byte onto itself leaves the parity of its bit count in bit 0.
pub proof fn lemma_fold_parity(byte: u8)
    by (bit_vector)
    ensures
        ({
            let x = byte ^ (byte >> 4);
            let y = x ^ (x >> 2);
            let z = y ^ (y >> 1);
            (z & 1 == 0) == ((byte % 2 + (byte / 2) % 2 + (byte / 4) % 2 + (byte / 8) % 2 + (byte
                / 16) % 2 + (byte / 32) % 2 + (byte / 64) % 2 + (byte / 128) % 2) % 2 == 0)
        }),
{
}

/// The five flags of a flag byte, bit by bit.
pub proof fn lemma_flag_bits(byte: u8)
    by (bit_vector)
    ensures
        (byte & 0x01 != 0) == (byte % 2 == 1),
        (byte & 0x04 != 0) == ((byte / 4) % 2 == 1),
        (byte & 0x10 != 0) == ((byte / 16) % 2 == 1),
        (byte & 0x40 != 0) == ((byte / 64) % 2 == 1),
        (byte & 0x80 != 0) == (byte / 128 == 1),
        (byte & 0xd5) | 0x02 == 128 * (byte / 128) + 64 * ((byte / 64) % 2) + 16 * ((byte / 16) % 2)
            + 4 * ((byte / 4) % 2) + 2 + byte % 2,
{
}

/// Shifting five one-bit fields and the fixed bit into place adds up their weights.
pub proof fn lemma_flag_pack(s: u8, z: u8, ac: u8, p: u8, cy: u8)
    by (bit_vector)
    requires
        s <= 1,
        z <= 1,
        ac <= 1,
        p <= 1,
        cy <= 1,
    ensures
        ((((((((((0u8 | s) << 1) | z) << 2) | ac) << 2) | p) << 1) | 1) << 1) | cy == 128 * s + 64
            * z + 16 * ac + 4 * p + 2 + cy,
        ((128 * s + 64 * z + 16 * ac + 4 * p + 2 + cy) as u8) & 0x2a == 0x02,
{
}

/// A window of eight bits in a 16-bit value, `distance` places above its low end.
pub proof fn lemma_window(value: u16, distance: u16)
    by (bit_vector)
    requires
        distance <= 8,
    ensures
        ((value >> distance) & 0xff) as u8 == (value >> distance) % 256,
{
}

/// Whether two bytes differ in the bits of `mask`.
pub proof fn lemma_changed(before: u8, after: u8, mask: u8)
    by (bit_vector)
    ensures
        ((before & mask) ^ (after & mask) > 0) == (before & mask != after & mask),
{
}

/// Puts two bytes side by side.
pub fn join16(high: u8, low: u8) -> (value: u16)
    ensures
        value == crate::state::join(high, low),
{
    proof {
        lemma_join(high, low);
    }
    ((high as u16) << 8) | (low as u16)
}

/// The high byte of a 16-bit value.
pub fn high8(value: u16) -> (byte: u8)
    ensures
        byte == crate::state::high_byte(value),
{
    proof {
        lemma_u16_bytes(value);
    }
    (value >> 8) as u8
}

/// The low byte of a 16-bit value.
pub fn low8(value: u16) -> (byte: u8)
    ensures
        byte == crate::state::low_byte(value),
{
    proof {
        lemma_u16_bytes(value);
    }
    (value & 0xff) as u8
}

} // verus!
