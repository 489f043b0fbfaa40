//! Trusted wrappers around the outside crates the engine draws on: random
//! numbers, fresh instance identifiers, and the current time. Nothing is
//! promised of any of these results beyond its range: every caller is
//! verified for every outcome.

use rand::Rng;
use vstd::prelude::*;

verus! {

/// Relies on rand::Rng::gen_range over 0..n: a uniformly random number
/// below `n`. The range must be non-empty, else gen_range panics.
#[verifier::external_body]
pub fn random_below(n: u32) -> (r: u32)
    requires
        n >= 1,
    ensures
        r < n,
{
    rand::thread_rng().gen_range(0..n)
}

/// Relies on uuid::Uuid::new_v4: a freshly generated random identifier,
/// rendered as a string. Nothing is promised of its value.
#[verifier::external_body]
pub fn new_instance_id() -> (r: String) {
    uuid::Uuid::new_v4().to_string()
}

/// Relies on chrono::Utc::now: the current Unix timestamp in seconds.
/// Nothing is promised of its value.
#[verifier::external_body]
pub fn now_timestamp() -> (r: i64) {
    chrono::Utc::now().timestamp()
}

} // verus!
