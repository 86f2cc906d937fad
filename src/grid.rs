//! Size of the frequency and log-strike grids.
use vstd::prelude::*;

verus! {

/// `2^n`.
pub open spec fn pow2(n: nat) -> nat
    decreases n,
{
    if n == 0 {
        1
    } else {
        2 * pow2((n - 1) as nat)
    }
}

/// Powers of two grow with the exponent.
pub proof fn lemma_pow2_monotone(a: nat, b: nat)
    requires
        a <= b,
    ensures
        pow2(a) <= pow2(b),
    decreases b - a,
{
    if a < b {
        lemma_pow2_monotone(a, (b - 1) as nat);
    }
}

/// Transform length `N = 2^n` of a grid with exponent `n`.
///
/// Returns `None` exactly when `2^n` does not fit in a `usize`: such a grid
/// cannot be allocated and is refused before any work is done.
pub fn grid_len(n: usize) -> (r: Option<usize>)
    ensures
        r is Some <==> pow2(n as nat) <= usize::MAX,
        r matches Some(len) ==> len as nat == pow2(n as nat),
{
    let mut len: usize = 1;
    let mut i: usize = 0;
    while i < n
        invariant
            i <= n,
            len as nat == pow2(i as nat),
        decreases n - i,
    {
        if len > usize::MAX / 2 {
            proof {
                lemma_pow2_monotone((i + 1) as nat, n as nat);
            }
            return None;
        }
        len = len * 2;
        i = i + 1;
    }
    Some(len)
}

} // verus!
