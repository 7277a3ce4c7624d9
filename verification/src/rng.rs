//! The randomness source: a thin trusted boundary over the `rand` crate.
//! Nothing is assumed of a draw beyond its bounds.

use vstd::prelude::*;

verus! {

/// Relies on `rand::random_range` over an inclusive integer range: the
/// draw comes from the thread-local generator and lies within the given
/// bounds.  The call panics only on an empty range, which the
/// precondition rules out.
#[verifier::external_body]
pub(crate) fn draw_in_range(lo: i64, hi: i64) -> (r: i64)
    requires
        lo <= hi,
    ensures
        lo <= r <= hi,
{
    rand::random_range(lo..=hi)
}

} // verus!
