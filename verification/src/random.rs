//! The node's pseudo-random source, used only to draw fresh session
//! identifiers for packets this node originates.

use rand::rngs::StdRng;
use rand::Rng;
use vstd::prelude::*;

verus! {

/// rand's standard seedable generator, opaque to verification.
#[verifier::external_type_specification]
#[verifier::external_body]
pub struct ExStdRng(StdRng);

/// Relies on rand's Rng::gen for StdRng: draws a pseudo-random value to use
/// as a session identifier. Nothing can be promised of a random draw.
#[verifier::external_body]
pub(crate) fn random_session_id(rng: &mut StdRng) -> (r: u64) {
    rng.gen()
}

} // verus!
