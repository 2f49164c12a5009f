use oorandom::Rand32;
use vstd::prelude::*;

verus! {

#[verifier::external_type_specification]
#[verifier::external_body]
pub struct ExRand32(Rand32);

/// Relies on oorandom::Rand32::new: builds a generator from a seed; nothing is
/// known of the numbers it will give.
pub assume_specification[ Rand32::new ](seed: u64) -> Rand32;

/// Relies on oorandom::Rand32::rand_range: for `lo < hi` the number it draws
/// lies in `lo..hi` (it subtracts `lo` from `hi` first, so `lo < hi` is needed).
#[verifier::external_body]
pub(crate) fn rand_range(rng: &mut Rand32, lo: u32, hi: u32) -> (r: u32)
    requires
        lo < hi,
    ensures
        lo <= r < hi,
{
    rng.rand_range(lo..hi)
}

} // verus!
