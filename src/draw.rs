use rand::Rng;
use vstd::prelude::*;

verus! {

/// Relies on rand's `thread_rng` and `Rng::gen_range` (what `SliceRandom::choose`
/// uses to pick a slot): an index drawn below `len`. `gen_range` panics on an
/// empty range, so `len` must be positive.
#[verifier::external_body]
pub(crate) fn draw_index(len: usize) -> (r: usize)
    requires
        len > 0,
    ensures
        r < len,
{
    rand::thread_rng().gen_range(0..len)
}

} // verus!
