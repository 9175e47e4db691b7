//! The crate's one window onto the random-number generator.
//!
//! Obstacle placement draws a vertical slot uniformly from a fixed interval.
//! The generator itself is an outside value passed in by the caller, so tests
//! and the surrounding program can seed it; the simulation relies only on the
//! drawn value lying inside the requested bounds.
use vstd::prelude::*;

verus! {

#[verifier::external_type_specification]
#[verifier::external_body]
pub struct ExStdRng(rand::rngs::StdRng);

/// Relies on rand::Rng::gen_range over the inclusive range `lo..=hi`: it
/// returns a value inside the bounds and panics only on an empty range.
#[verifier::external_body]
pub(crate) fn rand_in_range(rng: &mut rand::rngs::StdRng, lo: i64, hi: i64) -> (r: i64)
    requires
        lo <= hi,
    ensures
        lo <= r <= hi,
{
    rand::Rng::gen_range(rng, lo..=hi)
}

} // verus!
