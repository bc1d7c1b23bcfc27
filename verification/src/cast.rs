//! Conversions between the integer types of the graphics API.
//!
//! Sizes and counts arrive as `usize` or `u32` and leave as the signed 32-bit
//! integers that the API takes. Both conversions keep the low 32 bits, as the
//! API's C callers do.

use vstd::prelude::*;
use crate::gl::WORD_BYTES;

verus! {

/// The signed integer with the same 32 bits as `w`.
pub open spec fn signed(w: u32) -> int {
    if w < 0x8000_0000 {
        w as int
    } else {
        w - 0x1_0000_0000
    }
}

/// Reads the bits of `w` as a signed integer.
pub fn as_signed(w: u32) -> (r: i32)
    ensures
        r == signed(w),
{
    assert((w as i32) as int == if w < 0x8000_0000u32 {
        w as int
    } else {
        w - 0x1_0000_0000
    }) by (bit_vector);
    #[verifier::truncate]
    (w as i32)
}

/// The unsigned integer with the same 32 bits as `v`.
pub open spec fn unsigned(v: i32) -> int {
    if v >= 0 {
        v as int
    } else {
        v + 0x1_0000_0000
    }
}

/// Reads the bits of `v` as an unsigned integer. A location of `-1`, which the
/// API hands out for a name it does not know, becomes the largest index.
pub fn as_unsigned(v: i32) -> (r: u32)
    ensures
        r == unsigned(v),
{
    assert((v as u32) as int == if v >= 0i32 {
        v as int
    } else {
        v + 0x1_0000_0000
    }) by (bit_vector);
    #[verifier::truncate]
    (v as u32)
}

/// Reading the bits as signed and back as unsigned gives the word back, and
/// the other way round.
pub proof fn lemma_signed_unsigned(w: u32, v: i32)
    ensures
        unsigned(signed(w) as i32) == w,
        signed(unsigned(v) as u32) == v,
{
}

/// The low 32 bits of `n`, read as a signed integer.
pub open spec fn count(n: usize) -> int {
    signed((n as int % 0x1_0000_0000) as u32)
}

/// Narrows a length to the API's count type by keeping its low 32 bits.
pub fn as_count(n: usize) -> (r: i32)
    ensures
        r == count(n),
        n <= i32::MAX ==> r == n,
{
    assert((n as u32) as int == n as int % 0x1_0000_0000) by (bit_vector);
    let low: u32 = #[verifier::truncate]
    (n as u32);
    as_signed(low)
}

/// The low 32 bits of `i`.
pub open spec fn index(i: usize) -> u32 {
    (i as int % 0x1_0000_0000) as u32
}

/// `num_traits::AsPrimitive::<u32>::as_` on a `usize`, which num-traits
/// implements as the cast `self as u32`: the result is the low 32 bits of
/// `i`, for every `i`.
#[verifier::external_body]
fn as_index(i: usize) -> (r: u32)
    ensures
        r == index(i),
{
    num_traits::AsPrimitive::<u32>::as_(i)
}

/// Narrows the vertex numbers of a mesh's elements to the 32-bit indices
/// that the API draws from, each by itself and in the same order.
pub fn as_indices(elem2vtx: &Vec<usize>) -> (r: Vec<u32>)
    ensures
        r@.len() == elem2vtx@.len(),
        forall|k: int| 0 <= k < r@.len() ==> r@[k] == index(#[trigger] elem2vtx@[k]),
        (forall|k: int| 0 <= k < elem2vtx@.len() ==> #[trigger] elem2vtx@[k] <= u32::MAX) ==> (
        forall|k: int| 0 <= k < r@.len() ==> #[trigger] r@[k] == elem2vtx@[k]),
{
    let mut indices: Vec<u32> = Vec::new();
    let mut k: usize = 0;
    while k < elem2vtx.len()
        invariant
            k <= elem2vtx.len(),
            indices@.len() == k,
            forall|j: int| 0 <= j < k ==> indices@[j] == index(#[trigger] elem2vtx@[j]),
        decreases elem2vtx.len() - k,
    {
        indices.push(as_index(elem2vtx[k]));
        k = k + 1;
    }
    indices
}

/// The bytes that `n` numbers of 32 bits take, as the API's size type has
/// them: `None` where they are more than it can hold.
pub open spec fn spec_byte_size(n: usize) -> Option<isize> {
    if n * WORD_BYTES <= isize::MAX {
        Some((n * WORD_BYTES) as isize)
    } else {
        None
    }
}

/// Computes the bytes that `n` numbers of 32 bits take.
#[verifier::when_used_as_spec(spec_byte_size)]
pub fn byte_size(n: usize) -> (r: Option<isize>)
    ensures
        r == spec_byte_size(n),
{
    match n.checked_mul(WORD_BYTES) {
        Some(bytes) => if bytes <= isize::MAX as usize {
            Some(bytes as isize)
        } else {
            None
        },
        None => None,
    }
}

/// The quotient of `x` by `d`, rounded toward zero.
pub open spec fn toward_zero(x: int, d: int) -> int
    recommends
        d != 0,
{
    if x >= 0 && d > 0 {
        x / d
    } else if x < 0 && d < 0 {
        (-x) / (-d)
    } else if x < 0 {
        -((-x) / d)
    } else {
        -(x / (-d))
    }
}

/// Dividing two 32-bit integers with a check gives the quotient rounded toward
/// zero, but for a divisor of zero and for the one quotient that is too large.
pub proof fn lemma_checked_div(x: i32, d: i32)
    ensures
        x.checked_div(d) == if d == 0 || (x == i32::MIN && d == -1) {
            None
        } else {
            Some(toward_zero(x as int, d as int) as i32)
        },
        d != 0 && !(x == i32::MIN && d == -1) ==> i32::MIN <= toward_zero(x as int, d as int)
            <= i32::MAX,
{
    if d != 0 {
        let a: int = if x >= 0 {
            x as int
        } else {
            -(x as int)
        };
        let b: int = if d > 0 {
            d as int
        } else {
            -(d as int)
        };
        assert(0 <= a / b <= a) by (nonlinear_arith)
            requires
                a >= 0,
                b >= 1,
        ;
        assert(b >= 2 && a > 0 ==> a / b < a) by (nonlinear_arith)
            requires
                a >= 0,
                b >= 1,
        ;
        assert(b == 1 ==> a / b == a) by (nonlinear_arith)
            requires
                a >= 0,
                b >= 1,
        ;
        assert(x as int * -1 == -(x as int));
        assert(d as int * -1 == -(d as int));
    }
}

} // verus!
