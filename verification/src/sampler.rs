//! Dispatch plans for the two samplers: how a request for `points` values is
//! carried out.

use vstd::prelude::*;

verus! {

/// How a request for `points` noise values is served.
pub enum NoisePlan {
    /// No values were asked for.
    Empty,
    /// A single value carries no correlation structure: one standard-normal
    /// draw serves as the whole path.
    Single,
    /// An embedding of size `m` realizes `n = points - 1` correlated values;
    /// `points` entries are then read off the inverse transform.
    Embed { n: usize, m: usize },
}

/// Dispatch for a fractional Gaussian noise path of `points` values.
pub fn noise_plan(points: usize) -> (plan: NoisePlan)
    requires
        points <= usize::MAX / 4,
    ensures
        points == 0 ==> plan == NoisePlan::Empty,
        points == 1 ==> plan == NoisePlan::Single,
        points >= 2 ==> (plan matches NoisePlan::Embed { n, m } && n == points - 1
            && crate::embedding::good_embedding_size(n as int, m as int) && m >= points),
{
    if points == 0 {
        NoisePlan::Empty
    } else if points == 1 {
        NoisePlan::Single
    } else {
        let n = points - 1;
        let m = crate::embedding::embedding_size(n);
        NoisePlan::Embed { n, m }
    }
}

/// How a request for `points` motion values is served.
pub enum MotionPlan {
    /// No values were asked for.
    Empty,
    /// The path starts at the origin: a single zero is the whole path.
    Origin,
    /// A leading zero followed by `increments` noise values, turned into a
    /// path by a running cumulative sum; the path has `increments + 1`
    /// values in all.
    Accumulate { increments: usize },
}

/// Dispatch for a fractional Brownian motion path of `points` values.
pub fn motion_plan(points: usize) -> (plan: MotionPlan)
    ensures
        points == 0 ==> plan == MotionPlan::Empty,
        points == 1 ==> plan == MotionPlan::Origin,
        points >= 2 ==> plan == (MotionPlan::Accumulate { increments: (points - 1) as usize }),
{
    if points == 0 {
        MotionPlan::Empty
    } else if points == 1 {
        MotionPlan::Origin
    } else {
        MotionPlan::Accumulate { increments: points - 1 }
    }
}

} // verus!
