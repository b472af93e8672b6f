//! The pause between two cycles.
//!
//! Its length is drawn anew for every cycle, so that the agent does not
//! contact the server at a fixed rhythm.

use rand::Rng;
use vstd::prelude::*;

verus! {

/// The shortest pause, in seconds.
pub const MIN_SLEEP_SECS: u64 = 1;

/// The longest pause, in seconds.
pub const MAX_SLEEP_SECS: u64 = 10;

/// Calls `gen_range` of `rand::Rng` on `rand::thread_rng()` with the
/// inclusive range from `low` to `high`. The value is drawn at random, so
/// the contract claims only what holds of every draw: it lies in the range.
/// An empty range makes `gen_range` panic and is left out.
#[verifier::external_body]
fn random_in(low: u64, high: u64) -> (value: u64)
    requires
        low <= high,
    ensures
        low <= value <= high,
{
    rand::thread_rng().gen_range(low..=high)
}

/// Draws the length of the next pause, in seconds.
pub fn sleep_seconds() -> (seconds: u64)
    ensures
        MIN_SLEEP_SECS <= seconds <= MAX_SLEEP_SECS,
{
    random_in(MIN_SLEEP_SECS, MAX_SLEEP_SECS)
}

} // verus!
