//! The verified side of feature standardization.
//!
//! Standardizing rewrites each feature column to zero mean and unit
//! population standard deviation: `(v - mean) / std_dev`, with the divisor
//! using N. The sums and the division are floating-point arithmetic and
//! belong to the driver; what the library owns is the degenerate-input
//! policy. A column of zero variance would divide by zero and flood the
//! training with non-finite values, so the driver hands the per-column
//! standard deviations here, and a fit may proceed only when every spread is
//! a positive finite value — the fail-loudly policy for constant feature
//! columns.

use vstd::prelude::*;

use crate::bits::is_positive_finite_bits;
use crate::bits::INF_MAG;
use crate::bits::SIGN_MASK;

verus! {

/// Every per-column standard deviation is a positive finite value: no
/// constant column (spread zero), no NaN, no infinity, and no negative
/// pattern.
pub open spec fn spreads_ok(s: Seq<u64>) -> bool {
    forall|j: int| 0 <= j < s.len() ==> is_positive_finite_bits(#[trigger] s[j])
}

/// Checks the per-column standard deviations before a standardization is
/// trusted: succeeds exactly when every spread is a positive finite value,
/// and otherwise names the first degenerate column.
pub fn check_feature_spreads(stds: &Vec<u64>) -> (r: Result<(), usize>)
    ensures
        r is Ok <==> spreads_ok(stds@),
        r matches Err(j) ==> {
            &&& j < stds@.len()
            &&& !is_positive_finite_bits(stds@[j as int])
            &&& forall|k: int| 0 <= k < j ==> is_positive_finite_bits(#[trigger] stds@[k])
        },
{
    let n: usize = stds.len();
    let mut j: usize = 0;
    while j < n
        invariant
            j <= n,
            n == stds@.len(),
            forall|k: int| 0 <= k < j ==> is_positive_finite_bits(#[trigger] stds@[k]),
        decreases n - j,
    {
        let v: u64 = stds[j];
        let mag: u64 = if v >= SIGN_MASK {
            v - SIGN_MASK
        } else {
            v
        };
        let positive_finite: bool = v < SIGN_MASK && 0 < mag && mag < INF_MAG;
        if !positive_finite {
            return Err(j);
        }
        j = j + 1;
    }
    Ok(())
}

} // verus!
