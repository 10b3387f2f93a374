//! The one point where chance enters the library.

use vstd::prelude::*;

use rand::Rng;

verus! {

/// Draws a uniform offset from `[-bound, +bound]`.
///
/// Relies on `rand::Rng::gen_range` over the inclusive range
/// `-bound..=bound`: a draw from a nonempty inclusive range lies inside it,
/// and the range is nonempty whenever `bound` is not negative.  Nothing more
/// is assumed of the draw; callers must hold for every value in the range.
#[verifier::external_body]
pub(crate) fn sample_offset(bound: i64) -> (r: i64)
    requires
        0 <= bound,
    ensures
        -bound <= r <= bound,
{
    rand::thread_rng().gen_range(-bound..=bound)
}

} // verus!
