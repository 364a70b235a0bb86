//! Counting the set bits of a 64-bit bitboard.

use vstd::prelude::*;

verus! {

/// The number of set bits of `x` among the bits below position `i`.
pub open spec fn bits_below(x: u64, i: nat) -> int
    decreases i,
{
    if i == 0 {
        0
    } else {
        bits_below(x, (i - 1) as nat) + (((x >> ((i - 1) as u64)) & 1) as int)
    }
}

/// The number of set bits of `x`: the population count of a bitboard.
pub open spec fn pop64(x: u64) -> int {
    bits_below(x, 64)
}

proof fn lemma_bits_below_bounds(x: u64, i: nat)
    ensures
        0 <= bits_below(x, i) <= i,
    decreases i,
{
    if i > 0 {
        lemma_bits_below_bounds(x, (i - 1) as nat);
        let s = (i - 1) as u64;
        assert((x >> s) & 1 <= 1) by (bit_vector);
    }
}

/// A population count never exceeds the 64 squares of the board.
pub proof fn lemma_pop64_bounds(x: u64)
    ensures
        0 <= pop64(x) <= 64,
{
    lemma_bits_below_bounds(x, 64);
}

/// Counts the set bits of `x`.
pub fn popcount64(x: u64) -> (n: u32)
    ensures
        n as int == pop64(x),
        n <= 64,
{
    let mut n: u32 = 0;
    let mut i: u64 = 0;
    while i < 64
        invariant
            i <= 64,
            n as int == bits_below(x, i as nat),
            n <= i,
        decreases 64 - i,
    {
        let bit = (x >> i) & 1;
        assert(bit <= 1) by (bit_vector)
            requires
                bit == (x >> i) & 1,
        ;
        n = n + bit as u32;
        i = i + 1;
    }
    n
}

} // verus!
