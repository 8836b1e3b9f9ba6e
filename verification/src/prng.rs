use vstd::prelude::*;

verus! {

/// One round of the 64-bit xorshift generator with the shift triple (13, 7, 17).
pub open spec fn xorshift(seed: u64) -> u64 {
    let a = seed ^ (seed << 13);
    let b = a ^ (a >> 7);
    b ^ (b << 17)
}

/// Advances the generator: the value returned is both the random number and
/// the seed of the following call.
pub fn rand(seed: u64) -> (next: u64)
    ensures
        next == xorshift(seed),
{
    let mut rnd: u64 = seed;
    rnd ^= rnd << 13;
    rnd ^= rnd >> 7;
    rnd ^= rnd << 17;
    rnd
}

/// Zero is the generator's only fixed point: from any other seed it never
/// produces zero, so a non-zero seed never degenerates.
pub proof fn lemma_xorshift_nonzero(seed: u64)
    ensures
        (xorshift(seed) == 0) <==> (seed == 0),
{
    assert((xorshift(seed) == 0) <==> (seed == 0)) by (bit_vector);
}

} // verus!
