use vstd::prelude::*;

use rand::Rng;

verus! {

/// Relies on rand::Rng::gen_range over the half-open range `lo..hi`, which
/// returns a uniformly sampled value of that range and panics only when the
/// range is empty; the `requires` rules the empty range out.
#[verifier::external_body]
pub(crate) fn gen_range_usize(lo: usize, hi: usize) -> (r: usize)
    requires
        lo < hi,
    ensures
        lo <= r < hi,
{
    rand::thread_rng().gen_range(lo..hi)
}

} // verus!
