//! The source of chance for random grids.

use vstd::prelude::*;

verus! {

/// One flip of a coin, taken from `fastrand::bool` on the generator of the
/// calling thread. Nothing is claimed of the outcome: every caller has to be
/// right for heads and for tails alike.
#[verifier::external_body]
pub(crate) fn coin_flip() -> (heads: bool) {
    fastrand::bool()
}

} // verus!
