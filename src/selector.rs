//! Choice of the grid point nearest a requested strike.
//!
//! Distances between a grid log-strike and the target are handed in as order
//! keys: integers that order as the distances do. For a non-negative IEEE-754
//! double its bit pattern is such a key, and a NaN distance keys above every
//! number, so it is never selected.
use vstd::prelude::*;

verus! {

/// Key of an infinite distance (the bit pattern of positive infinity). Only a
/// point strictly closer than this can be selected.
pub const FAR_KEY: u64 = 0x7ff0_0000_0000_0000;

/// Some point of the grid is closer than an infinite distance.
pub open spec fn has_reachable(keys: Seq<u64>) -> bool {
    exists|i: int| 0 <= i < keys.len() && keys[i] < FAR_KEY
}

/// `idx` is the first grid point at the least distance, and that distance is
/// finite.
pub open spec fn is_first_nearest(keys: Seq<u64>, idx: int) -> bool {
    &&& 0 <= idx < keys.len()
    &&& keys[idx] < FAR_KEY
    &&& forall|i: int| 0 <= i < keys.len() ==> keys[idx] <= keys[i]
    &&& forall|i: int| 0 <= i < idx ==> keys[idx] < keys[i]
}

/// Index of the grid point nearest the target, by a linear scan in which an
/// earlier point wins a tie. Where no distance is finite the first point is
/// returned.
pub fn nearest_index(keys: &Vec<u64>) -> (idx: usize)
    ensures
        has_reachable(keys@) ==> is_first_nearest(keys@, idx as int),
        !has_reachable(keys@) ==> idx == 0,
{
    let mut best_idx: usize = 0;
    let mut best_key: u64 = FAR_KEY;
    let mut i: usize = 0;
    while i < keys.len()
        invariant
            i <= keys@.len(),
            best_key <= FAR_KEY,
            forall|j: int| 0 <= j < i ==> best_key <= keys@[j],
            best_key < FAR_KEY ==> {
                &&& best_idx < i
                &&& keys@[best_idx as int] == best_key
                &&& forall|j: int| 0 <= j < best_idx ==> best_key < keys@[j]
            },
            best_key == FAR_KEY ==> best_idx == 0,
        decreases keys@.len() - i,
    {
        if keys[i] < best_key {
            best_key = keys[i];
            best_idx = i;
        }
        i = i + 1;
    }
    best_idx
}

/// A strike that lies exactly on a grid point (distance key 0), with no
/// earlier point exactly on it, selects that point and no other.
pub proof fn lemma_exact_strike_selected(keys: Seq<u64>, m: int)
    requires
        0 <= m < keys.len(),
        keys[m] == 0,
        forall|i: int| 0 <= i < m ==> keys[i] != 0,
    ensures
        has_reachable(keys),
        forall|idx: int| is_first_nearest(keys, idx) <==> idx == m,
{
    assert(keys[m] < FAR_KEY);
    assert forall|idx: int| is_first_nearest(keys, idx) implies idx == m by {
        if idx < m {
            assert(keys[idx] <= keys[m]);
        } else if idx > m {
            assert(keys[idx] < keys[m]);
        }
    }
}

} // verus!
