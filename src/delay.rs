//! How long the loop waits between two posts: a whole number of seconds, at
//! least half an hour and less than an hour.
use vstd::prelude::*;

verus! {

/// The shortest wait, in seconds.
pub const MIN_DELAY_SECS: u64 = 1800;

/// The first wait that is too long, in seconds.
pub const MAX_DELAY_SECS: u64 = 3600;

/// Relies on rand::random: it draws a value from the thread-local generator.
/// Nothing is promised of the value drawn.
pub assume_specification<T>[ rand::random::<T> ]() -> (r: T)
    where
        rand::distributions::Standard: rand::distributions::Distribution<T>,
;

/// The wait that a random sample stands for.
pub open spec fn delay_of(sample: u64) -> int {
    MIN_DELAY_SECS + (sample as int) % ((MAX_DELAY_SECS - MIN_DELAY_SECS) as int)
}

/// Maps a random sample onto the range of waits, in seconds.
pub fn delay_for_sample(sample: u64) -> (r: u64)
    ensures
        r as int == delay_of(sample),
        MIN_DELAY_SECS <= r < MAX_DELAY_SECS,
{
    sample % (MAX_DELAY_SECS - MIN_DELAY_SECS) + MIN_DELAY_SECS
}

/// Draws a fresh wait, in seconds.
pub fn random_delay() -> (r: u64)
    ensures
        MIN_DELAY_SECS <= r < MAX_DELAY_SECS,
        exists|sample: u64| r as int == delay_of(sample),
{
    let sample: u64 = rand::random::<u64>();
    delay_for_sample(sample)
}

} // verus!
