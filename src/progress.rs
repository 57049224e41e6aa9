//! State shared by the workers of one search: the attempt counter with the
//! instant the search began, and the flag that stops every worker.

use std::sync::atomic::{AtomicBool, AtomicU64, Ordering};
use std::time::{Duration, Instant};
use vstd::prelude::*;

verus! {

#[verifier::external_type_specification]
#[verifier::external_body]
pub struct ExInstant(std::time::Instant);

/// Relies on std::time::Instant::now: a reading of the monotonic clock.
pub assume_specification[ std::time::Instant::now ]() -> std::time::Instant;

/// Relies on std::time::Instant::elapsed: the time since that reading.
pub assume_specification[ std::time::Instant::elapsed ](i: &std::time::Instant) -> std::time::Duration;

/// The number of attempts that workers have published, and when the search
/// began. Workers publish in batches, so a reading may lag behind the work
/// done by up to one batch per worker.
#[derive(Debug)]
pub struct Stats {
    attempts: AtomicU64,
    start_time: Instant,
}

impl Stats {
    /// A counter at zero, started now.
    pub fn new() -> (r: Stats) {
        Stats { attempts: AtomicU64::new(0), start_time: Instant::now() }
    }

    /// Adds `count` attempts; callers on any number of threads may add at once
    /// and no addition is lost.
    pub fn add(&self, count: u64) {
        self.attempts.fetch_add(count, Ordering::Relaxed);
    }

    /// The attempts published so far.
    pub fn get_attempts(&self) -> (r: u64) {
        self.attempts.load(Ordering::Relaxed)
    }

    /// The time since the counter was made.
    pub fn get_elapsed(&self) -> (r: Duration) {
        self.start_time.elapsed()
    }
}

/// The one stop signal of a search, raised by the first worker that finds a
/// match, by an outside interrupt, or by the pool once it holds a result.
/// There is no way to lower it again.
#[derive(Debug)]
pub struct CancelFlag {
    raised: AtomicBool,
}

impl CancelFlag {
    /// A flag that is not raised.
    pub fn new() -> (r: CancelFlag) {
        CancelFlag { raised: AtomicBool::new(false) }
    }

    /// Raises the flag; raising it again changes nothing.
    pub fn set(&self) {
        self.raised.store(true, Ordering::Relaxed);
    }

    /// Whether the flag has been raised.
    pub fn is_set(&self) -> (r: bool) {
        self.raised.load(Ordering::Relaxed)
    }
}

} // verus!
