use std::sync::atomic::{AtomicU64, Ordering};
use std::sync::Arc;
use std::time::{Duration, SystemTime, UNIX_EPOCH};
use vstd::prelude::*;

verus! {

#[verifier::external_type_specification]
#[verifier::external_body]
pub struct ExSystemTime(SystemTime);

/// A source of the current time in UNIX seconds. What a clock reads depends
/// on the moment it is read (and, for a `FixedClock`, on every handle that
/// may set it), so nothing is stated of a reading.
pub trait Clock {
    /// The current time.
    fn now(&self) -> u64;
}

/// The machine's wall clock.
#[derive(Clone, Copy)]
pub struct SystemClock;

impl Default for SystemClock {
    fn default() -> (res: SystemClock)
        ensures
            res == SystemClock,
    {
        SystemClock
    }
}

/// Reads the wall clock with `std::time::SystemTime::now`; nothing is stated
/// of the reading.
#[verifier::external_body]
fn system_time_now() -> SystemTime {
    SystemTime::now()
}

/// The time from the UNIX epoch to `time`, with
/// `SystemTime::duration_since(UNIX_EPOCH)`; `None` for a time before the
/// epoch. Nothing is stated of the value, which the opaque time determines.
#[verifier::external_body]
fn elapsed_since_epoch(time: &SystemTime) -> Option<Duration> {
    time.duration_since(UNIX_EPOCH).ok()
}

/// The whole seconds of a duration, with `Duration::as_secs`. Nothing is
/// stated of the value, which the opaque duration determines.
#[verifier::external_body]
fn whole_seconds(elapsed: &Duration) -> u64 {
    elapsed.as_secs()
}

impl Clock for SystemClock {
    /// Seconds since the UNIX epoch, or 0 when the clock reads earlier.
    fn now(&self) -> u64 {
        match elapsed_since_epoch(&system_time_now()) {
            Some(elapsed) => whole_seconds(&elapsed),
            None => 0,
        }
    }
}

/// A clock that reads whatever time it was last set to, through any handle.
///
/// Clones share one reading: setting the time through one clone moves every
/// clone, including one already handed to an `AppState`. Because another
/// handle may set it at any moment, nothing is stated of a reading.
#[derive(Clone)]
pub struct FixedClock {
    now: Arc<AtomicU64>,
}

impl FixedClock {
    /// A clock set to `now`.
    pub fn new(now: u64) -> FixedClock {
        FixedClock { now: Arc::new(AtomicU64::new(now)) }
    }

    /// Moves this clock and all its clones to `now`.
    pub fn set(&self, now: u64) {
        self.now.store(now, Ordering::Relaxed);
    }
}

impl Clock for FixedClock {
    /// The time the clock was last set to.
    fn now(&self) -> u64 {
        self.now.load(Ordering::Relaxed)
    }
}

} // verus!
