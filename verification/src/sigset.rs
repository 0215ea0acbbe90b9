//! Signal sets as 64-bit masks: signal `n` (1..=64) is bit `n - 1`.

use vstd::prelude::*;

verus! {

/// The mask with only the bit of signal `sig` set.
pub open spec fn spec_sigbit(sig: i32) -> u64 {
    1u64 << ((sig - 1) as u64)
}

/// The set holding signal `sig` alone.
pub fn sigbit(sig: i32) -> (r: u64)
    requires
        1 <= sig <= 64,
    ensures
        r == spec_sigbit(sig),
{
    1u64 << ((sig - 1) as u64)
}

/// Distinct signals have distinct, non-overlapping bits.
pub proof fn lemma_sigbits_disjoint(a: i32, b: i32)
    requires
        1 <= a <= 64,
        1 <= b <= 64,
        a != b,
    ensures
        spec_sigbit(a) & spec_sigbit(b) == 0,
        spec_sigbit(a) != 0,
{
    let x = (a - 1) as u64;
    let y = (b - 1) as u64;
    assert((1u64 << x) & (1u64 << y) == 0 && (1u64 << x) != 0) by (bit_vector)
        requires
            x < 64,
            y < 64,
            x != y,
    ;
}

} // verus!
