//! The colour of one pixel: a 32-bit word computed from the frame counter,
//! the pixel's sample point and a shift amount, and its four bytes in the
//! order they are stored.

use vstd::prelude::*;

verus! {

/// The word before mixing: the counter plus `x XOR y`, wrapping, with the
/// top byte forced to `0xFF`.
pub open spec fn base_word(f: u32, x: u32, y: u32) -> u32 {
    (((f + (x ^ y)) % 0x1_0000_0000) as u32) | 0xFF00_0000u32
}

/// The value whose tangent the host takes to pick the shift amount of the
/// pixel sampled at `(x, y)`.
pub open spec fn shift_key(x: u32, y: u32) -> u32 {
    x | y
}

/// The word that is mixed into the base: the base shifted left by `shift`
/// modulo 32, then doubled, wrapping.
pub open spec fn smear(base: u32, shift: u32) -> u32 {
    (((base << (shift % 32)) * 2) % 0x1_0000_0000) as u32
}

/// The pixel's colour word: the base XOR its smear.
pub open spec fn pixel_word(f: u32, x: u32, y: u32, shift: u32) -> u32 {
    base_word(f, x, y) ^ smear(base_word(f, x, y), shift)
}

/// The four bytes of `word`, most significant first.
pub open spec fn be_bytes(word: u32) -> Seq<u8> {
    seq![
        (word / 0x100_0000) as u8,
        (word / 0x1_0000 % 0x100) as u8,
        (word / 0x100 % 0x100) as u8,
        (word % 0x100) as u8,
    ]
}

/// Only the low five bits of the shift amount count.
pub proof fn lemma_shift_wraps(f: u32, x: u32, y: u32, shift: u32)
    ensures
        pixel_word(f, x, y, shift) == pixel_word(f, x, y, shift % 32),
{
}

/// The top byte of the base word is always `0xFF`. It is the first byte
/// stored of the pixel exactly when the top byte of the smear is zero: the
/// smear is mixed in with XOR and clears every top bit that it holds.
pub proof fn lemma_top_byte(f: u32, x: u32, y: u32, shift: u32)
    ensures
        be_bytes(base_word(f, x, y))[0] == 0xFF,
        be_bytes(pixel_word(f, x, y, shift))[0] == 0xFF <==> be_bytes(
            smear(base_word(f, x, y), shift),
        )[0] == 0,
{
    let sum = ((f + (x ^ y)) % 0x1_0000_0000) as u32;
    let base = base_word(f, x, y);
    let mixed = smear(base, shift);
    assert(base == sum | 0xFF00_0000u32);
    assert((sum | 0xFF00_0000u32) / 0x100_0000 == 0xFF) by (bit_vector);
    assert(base / 0x100_0000 == 0xFF ==> ((base ^ mixed) / 0x100_0000 == 0xFF <==> mixed
        / 0x100_0000 == 0)) by (bit_vector);
}

/// Computes the colour word of the pixel sampled at `(x, y)` in the frame
/// with counter value `f`, mixed with the given shift amount.
pub fn shade(f: u32, x: u32, y: u32, shift: u32) -> (word: u32)
    ensures
        word == pixel_word(f, x, y, shift),
{
    let base: u32 = f.wrapping_add(x ^ y) | 0xFF00_0000;
    base ^ base.wrapping_shl(shift).wrapping_mul(2)
}

/// Splits `word` into its four bytes, most significant first.
pub fn word_bytes(word: u32) -> (bytes: [u8; 4])
    ensures
        bytes@ == be_bytes(word),
{
    let b0: u8 = (word >> 24) as u8;
    let b1: u8 = ((word >> 16) & 0xff) as u8;
    let b2: u8 = ((word >> 8) & 0xff) as u8;
    let b3: u8 = (word & 0xff) as u8;
    assert(word >> 24 == word / 0x100_0000 && (word >> 24) < 0x100) by (bit_vector);
    assert((word >> 16) & 0xff == word / 0x1_0000 % 0x100 && ((word >> 16) & 0xff) < 0x100)
        by (bit_vector);
    assert((word >> 8) & 0xff == word / 0x100 % 0x100 && ((word >> 8) & 0xff) < 0x100)
        by (bit_vector);
    assert(word & 0xff == word % 0x100 && (word & 0xff) < 0x100) by (bit_vector);
    let bytes: [u8; 4] = [b0, b1, b2, b3];
    assert(bytes@ =~= be_bytes(word));
    bytes
}

} // verus!
