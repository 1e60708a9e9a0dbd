//! The xorshift32 pseudo-random generator.

use vstd::prelude::*;

verus! {

/// One round of xorshift32 as a function on 32-bit words.
pub open spec fn xorshift32_spec(x: u32) -> u32 {
    let a = x ^ (x << 13u32);
    let b = a ^ (a >> 17u32);
    b ^ (b << 5u32)
}

/// Advances the generator by one round.
///
/// Zero is the only word that a round leaves in place, and no other word
/// ever becomes zero.
pub fn xorshift32(x: u32) -> (r: u32)
    ensures
        r == xorshift32_spec(x),
        x != 0 <==> r != 0,
        x != 0 <==> r != x,
{
    proof {
        lemma_xorshift32_nonzero(x);
        lemma_xorshift32_fixed_point(x);
    }
    let mut x = x;
    x ^= x << 13;
    x ^= x >> 17;
    x ^= x << 5;
    x
}

/// A round maps zero to zero and every other word to a non-zero word.
pub proof fn lemma_xorshift32_nonzero(x: u32)
    ensures
        x != 0 <==> xorshift32_spec(x) != 0,
{
    assert(x != 0 <==> (x ^ (x << 13u32)) != 0) by (bit_vector);
    let a = x ^ (x << 13u32);
    assert(a != 0 <==> (a ^ (a >> 17u32)) != 0) by (bit_vector);
    let b = a ^ (a >> 17u32);
    assert(b != 0 <==> (b ^ (b << 5u32)) != 0) by (bit_vector);
}

/// Zero is the only fixed point of a round.
pub proof fn lemma_xorshift32_fixed_point(x: u32)
    ensures
        x != 0 <==> xorshift32_spec(x) != x,
{
    assert(x != 0 <==> ({
        let a = x ^ (x << 13u32);
        let b = a ^ (a >> 17u32);
        b ^ (b << 5u32)
    }) != x) by (bit_vector);
}

/// A round is injective: distinct words stay distinct.
pub proof fn lemma_xorshift32_injective(x: u32, y: u32)
    ensures
        xorshift32_spec(x) == xorshift32_spec(y) <==> x == y,
{
    assert((x ^ (x << 13u32)) == (y ^ (y << 13u32)) <==> x == y) by (bit_vector);
    let a = x ^ (x << 13u32);
    let c = y ^ (y << 13u32);
    assert((a ^ (a >> 17u32)) == (c ^ (c >> 17u32)) <==> a == c) by (bit_vector);
    let b = a ^ (a >> 17u32);
    let d = c ^ (c >> 17u32);
    assert((b ^ (b << 5u32)) == (d ^ (d << 5u32)) <==> b == d) by (bit_vector);
}

} // verus!
