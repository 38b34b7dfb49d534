use rand::Rng;
use vstd::prelude::*;

verus! {

/// Relies on `rand::Rng::gen_range` over `rand::thread_rng()`: a value drawn
/// from `[low, high)`. The call panics on an empty range, which `requires` excludes.
#[verifier::external_body]
pub(crate) fn random_in(low: u32, high: u32) -> (r: u32)
    requires
        low < high,
    ensures
        low <= r < high,
{
    rand::thread_rng().gen_range(low..high)
}

} // verus!
