//! Simpson's-rule weights of the frequency grid.
use vstd::prelude::*;

verus! {

/// Weight of frequency point `j`, counted in thirds: 1 at the first point,
/// 4 at odd points and 2 at the other even points. The last point keeps the
/// weight of its parity; no separate endpoint correction is made.
pub open spec fn weight_thirds(j: nat) -> nat {
    if j == 0 {
        1
    } else if j % 2 == 1 {
        4
    } else {
        2
    }
}

/// Quadrature weight of frequency point `j`, in thirds (`w_j = simpson_weight(j) / 3`).
pub fn simpson_weight(j: usize) -> (w: u32)
    ensures
        w as nat == weight_thirds(j as nat),
{
    if j == 0 {
        1
    } else if j % 2 == 1 {
        4
    } else {
        2
    }
}

} // verus!
