//! Durations and a stopwatch over the host's monotonic clock.
//!
//! The clock itself is outside the library: what a running stopwatch reads
//! depends on it, so contracts state only what holds of every reading, and
//! the decisions taken on readings are their own verified functions.

use vstd::prelude::*;

verus! {

/// A span of time in milliseconds.
#[derive(Clone, Copy, PartialEq, Eq, Structural, Debug)]
pub struct Duration {
    pub millis: u32,
}

impl Duration {
    pub fn from_millis(millis: u32) -> (r: Duration)
        ensures
            r == (Duration { millis }),
    {
        Duration { millis }
    }

    pub fn zero() -> (r: Duration)
        ensures
            r == (Duration { millis: 0u32 }),
    {
        Duration { millis: 0 }
    }
}

/// A moment of the host's monotonic clock, opaque to the library.
#[verifier::external_type_specification]
#[verifier::external_body]
pub struct ExInstant(std::time::Instant);

/// Relies on std::time::Instant::now: a moment of the monotonic clock.
/// Nothing is stated of the value; it depends on when the call runs.
#[verifier::external_body]
fn instant_now() -> std::time::Instant {
    std::time::Instant::now()
}

/// Relies on Instant::saturating_duration_since and Duration::as_millis: the
/// milliseconds from `earlier` to now, saturating at zero.  The value depends
/// on the clock, so nothing is stated of it.
#[verifier::external_body]
fn millis_since(earlier: &std::time::Instant) -> (r: u128) {
    std::time::Instant::now().saturating_duration_since(*earlier).as_millis()
}

/// Whether an elapsed time still lies strictly within a limit: the decision
/// applied to every clock reading.
pub fn within(elapsed: Duration, limit: Duration) -> (r: bool)
    ensures
        r == (elapsed.millis < limit.millis),
{
    elapsed.millis < limit.millis
}

/// Measures how long ago it was started; stopped until then.
#[derive(Clone, Copy)]
pub struct Stopwatch {
    pub start: Option<std::time::Instant>,
}

impl Stopwatch {
    /// The stopwatch has been started and not reset since.
    pub open spec fn is_running(&self) -> bool {
        self.start is Some
    }

    /// A stopwatch that is not running.
    pub fn new_stopped() -> (r: Stopwatch)
        ensures
            !r.is_running(),
    {
        Stopwatch { start: None }
    }

    /// Starts (or restarts) the stopwatch at the clock's current moment.
    pub fn start(&mut self)
        ensures
            final(self).is_running(),
    {
        self.start = Some(instant_now());
    }

    /// The time since the start, zero when not running.  A running
    /// stopwatch's reading depends on the clock; only that much is stated.
    pub fn elapsed(&self) -> (r: Duration)
        ensures
            !self.is_running() ==> r.millis == 0,
    {
        match &self.start {
            None => Duration { millis: 0 },
            Some(s) => {
                let m = millis_since(s);
                if m > u32::MAX as u128 {
                    Duration { millis: u32::MAX }
                } else {
                    Duration { millis: m as u32 }
                }
            },
        }
    }

    /// The stopwatch runs and its reading is still within `limit`.  A stopped
    /// stopwatch is never within any limit.
    pub fn is_running_within(&self, limit: Duration) -> (r: bool)
        ensures
            r ==> self.is_running(),
            !self.is_running() ==> !r,
    {
        if self.start.is_some() {
            within(self.elapsed(), limit)
        } else {
            false
        }
    }
}

impl Default for Stopwatch {
    /// The default stopwatch is stopped.
    fn default() -> (r: Stopwatch)
        ensures
            !r.is_running(),
    {
        Stopwatch::new_stopped()
    }
}

} // verus!
