//! The crate's one source of randomness: a thread-local uniform draw, used
//! by the waiting phase to place the next target wedge and by the target
//! phase to pick the next wait length.

use rand::Rng;
use vstd::prelude::*;

verus! {

/// Relies on rand's `Rng::gen_range` over the thread-local generator
/// `rand::thread_rng()`: for a non-empty half-open range it returns a value
/// of that range (and panics only on an empty one, which the precondition
/// rules out). Nothing more is assumed of the draw: callers must hold for
/// every value the range admits.
#[verifier::external_body]
pub(crate) fn gen_range_u32(lo: u32, hi: u32) -> (v: u32)
    requires
        lo < hi,
    ensures
        lo <= v < hi,
{
    rand::thread_rng().gen_range(lo..hi)
}

} // verus!
