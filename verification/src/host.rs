//! Trusted access to the host environment: the current date and time from
//! chrono, and the random shuffle from rand.  Nothing can be promised about
//! a clock reading, so the callers of these wrappers take the date as an
//! argument and are verified for every value of it; the shuffle promises
//! only what holds of every outcome, that the elements are permuted.

use vstd::prelude::*;

use rand::seq::SliceRandom;

verus! {

/// Relies on chrono's `Utc::now` and `Datelike::num_days_from_ce`: the
/// current civil date as a day number.  The value depends on the clock, so
/// nothing is promised of it.
#[verifier::external_body]
pub fn today_day_number() -> u64 {
    chrono::Datelike::num_days_from_ce(&chrono::Utc::now().date_naive()) as u64
}

/// Relies on chrono's `Utc::now` and `DateTime::timestamp`: the current unix
/// timestamp in seconds.  The value depends on the clock, so nothing is
/// promised of it.
#[verifier::external_body]
pub fn now_timestamp() -> u64 {
    chrono::Utc::now().timestamp() as u64
}

/// Relies on rand's `SliceRandom::shuffle`: a uniformly random in-place
/// permutation of the elements, which therefore keeps the multiset of
/// elements and the length.
#[verifier::external_body]
pub fn shuffle_strings(v: &mut Vec<String>)
    ensures
        final(v)@.to_multiset() == old(v)@.to_multiset(),
        final(v)@.len() == old(v)@.len(),
{
    v.shuffle(&mut rand::rng());
}

} // verus!
