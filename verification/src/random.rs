//! Random coordinates.

use crate::fixed::{clamp, saturate};
use vstd::prelude::*;

verus! {

/// Calls `nannou::rand::random_range`, which puts its two bounds in
/// ascending order and samples the half-open range between them from the
/// thread's generator. Claimed of it: the sample is at least the smaller bound
/// and less than the larger one. Equal bounds are left out: they make an empty
/// range, on which the sampler panics.
#[verifier::external_body]
fn random_between(a: i64, b: i64) -> (r: i64)
    requires
        a != b,
    ensures
        a < b ==> a <= r < b,
        b < a ==> b <= r < a,
{
    nannou::rand::random_range(a, b)
}

/// Whether the coordinate `p` lies within the extent `half` on either side of
/// the origin: from `-half` inclusive to `half` exclusive, the two ends taken
/// in ascending order. An extent of zero leaves the origin alone.
pub open spec fn within(p: i64, half: i64) -> bool {
    let other = clamp(-half);
    if half == 0 {
        p == 0
    } else if other < half {
        other <= p < half
    } else {
        half <= p < other
    }
}

/// A coordinate drawn at random within the extent `half` on either side of
/// the origin.
pub fn coordinate(half: i64) -> (p: i64)
    ensures
        within(p, half),
{
    let other: i64 = saturate(-(half as i128));
    if other == half {
        0
    } else {
        random_between(other, half)
    }
}

} // verus!
