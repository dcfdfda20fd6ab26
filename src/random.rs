use vstd::prelude::*;
use rand::Rng;

verus! {

/// Relies on rand's `thread_rng().gen_range(0..=255)` for a byte drawn
/// uniformly; the range is not empty, so the call does not panic. Which
/// byte comes back is not known.
#[verifier::external_body]
pub(crate) fn random_byte() -> (r: u8) {
    rand::thread_rng().gen_range(0..=255)
}

} // verus!
