//! Single precision numbers as their IEEE-754 words.
//!
//! Colours and matrices pass through this crate on their way to the graphics
//! API. They are carried as the 32-bit words that encode them: bit 31 is the
//! sign, so a number is negated by flipping that bit and nothing else.

use vstd::prelude::*;

verus! {

/// The word of `0.0`.
pub const ZERO: u32 = 0x0000_0000;

/// The word of `1.0`.
pub const ONE: u32 = 0x3F80_0000;

/// The word of `-1.0`.
pub const MINUS_ONE: u32 = 0xBF80_0000;

/// The word of `0.3`, rounded to nearest.
pub const THREE_TENTHS: u32 = 0x3E99_999A;

/// The word of `0.8`, rounded to nearest.
pub const EIGHT_TENTHS: u32 = 0x3F4C_CCCD;

/// The word of `1.1`, rounded to nearest.
pub const ELEVEN_TENTHS: u32 = 0x3F8C_CCCD;

/// The word of `4.0`.
pub const FOUR: u32 = 0x4080_0000;

/// The sign bit of a word.
pub const SIGN: u32 = 0x8000_0000;

/// The word of the number `-x`, where `w` is the word of `x`.
pub open spec fn negated(w: u32) -> u32 {
    w ^ SIGN
}

/// Negates the number that `w` encodes.
pub fn negate(w: u32) -> (r: u32)
    ensures
        r == negated(w),
{
    w ^ SIGN
}

/// Negating twice gives the word back.
pub proof fn lemma_negated_twice(w: u32)
    ensures
        negated(negated(w)) == w,
{
    assert((w ^ 0x8000_0000u32) ^ 0x8000_0000u32 == w) by (bit_vector);
}

/// Negating changes the sign bit and keeps the 31 bits below it.
pub proof fn lemma_negated_keeps_magnitude(w: u32)
    ensures
        negated(w) & 0x7FFF_FFFFu32 == w & 0x7FFF_FFFFu32,
        negated(w) & SIGN != w & SIGN,
{
    assert((w ^ 0x8000_0000u32) & 0x7FFF_FFFFu32 == w & 0x7FFF_FFFFu32) by (bit_vector);
    assert((w ^ 0x8000_0000u32) & 0x8000_0000u32 != w & 0x8000_0000u32) by (bit_vector);
}

/// A 4 by 4 matrix, column by column.
pub type Mat4 = [u32; 16];

/// The matrix `m` with its third row negated: the product of the reflection
/// in the plane `z = 0` and `m`. In a column-major matrix the third row lies
/// at the positions 2, 6, 10 and 14.
pub open spec fn z_flipped(m: Mat4) -> Mat4 {
    [
        m[0],
        m[1],
        negated(m[2]),
        m[3],
        m[4],
        m[5],
        negated(m[6]),
        m[7],
        m[8],
        m[9],
        negated(m[10]),
        m[11],
        m[12],
        m[13],
        negated(m[14]),
        m[15],
    ]
}

/// Reflects what `m` maps to in the plane `z = 0`.
pub fn z_flip(m: &Mat4) -> (r: Mat4)
    ensures
        r == z_flipped(*m),
{
    let r: Mat4 = [
        m[0],
        m[1],
        negate(m[2]),
        m[3],
        m[4],
        m[5],
        negate(m[6]),
        m[7],
        m[8],
        m[9],
        negate(m[10]),
        m[11],
        m[12],
        m[13],
        negate(m[14]),
        m[15],
    ];
    assert(r =~= z_flipped(*m));
    r
}

/// Reflecting twice gives the matrix back.
pub proof fn lemma_z_flipped_twice(m: Mat4)
    ensures
        z_flipped(z_flipped(m)) == m,
{
    lemma_negated_twice(m[2]);
    lemma_negated_twice(m[6]);
    lemma_negated_twice(m[10]);
    lemma_negated_twice(m[14]);
    assert(z_flipped(z_flipped(m)) =~= m);
}

/// Reflecting touches the third row only.
pub proof fn lemma_z_flipped_rows(m: Mat4)
    ensures
        forall|i: int|
            0 <= i < 16 ==> #[trigger] z_flipped(m)[i] == if i % 4 == 2 {
                negated(m[i])
            } else {
                m[i]
            },
{
}

} // verus!
