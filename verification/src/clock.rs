//! The wall clock, read as a signed count of nanoseconds from the Unix epoch.

use vstd::prelude::*;

verus! {

/// An instant of the wall clock: `nanos` nanoseconds after the Unix epoch,
/// or before it where `before_epoch` is set.
#[derive(Clone, Copy, Debug, PartialEq, Eq, Structural)]
pub struct Timestamp {
    pub before_epoch: bool,
    pub nanos: u128,
}

impl Timestamp {
    /// The signed distance from the Unix epoch in nanoseconds.
    pub open spec fn value(&self) -> int {
        if self.before_epoch {
            -(self.nanos as int)
        } else {
            self.nanos as int
        }
    }

    /// The Unix epoch itself.
    pub fn unix_epoch() -> (t: Timestamp)
        ensures
            t.value() == 0,
            !t.before_epoch,
    {
        Timestamp { before_epoch: false, nanos: 0 }
    }

    /// The instant `nanos` nanoseconds after the Unix epoch.
    pub fn after_epoch(nanos: u128) -> (t: Timestamp)
        ensures
            t.value() == nanos,
            !t.before_epoch,
            t.nanos == nanos,
    {
        Timestamp { before_epoch: false, nanos }
    }

    /// Whether this instant is at or after `other`.
    pub fn is_at_or_after(&self, other: &Timestamp) -> (r: bool)
        ensures
            r == (self.value() >= other.value()),
    {
        if self.before_epoch {
            if other.before_epoch {
                self.nanos <= other.nanos
            } else {
                self.nanos == 0 && other.nanos == 0
            }
        } else {
            if other.before_epoch {
                true
            } else {
                self.nanos >= other.nanos
            }
        }
    }

    /// The instant `duration` nanoseconds later; the result must be
    /// representable (at most `u128::MAX` nanoseconds after the epoch).
    pub fn plus_nanos(&self, duration: u128) -> (t: Timestamp)
        requires
            self.value() + duration <= u128::MAX,
        ensures
            t.value() == self.value() + duration,
    {
        if !self.before_epoch {
            Timestamp { before_epoch: false, nanos: self.nanos + duration }
        } else if duration >= self.nanos {
            Timestamp { before_epoch: false, nanos: duration - self.nanos }
        } else {
            Timestamp { before_epoch: true, nanos: self.nanos - duration }
        }
    }
}

#[verifier::external_type_specification]
#[verifier::external_body]
pub struct ExSystemTime(std::time::SystemTime);

/// `SystemTime::now`: the current wall-clock time; nothing is stated of it.
#[verifier::external_body]
fn system_time_now() -> std::time::SystemTime {
    std::time::SystemTime::now()
}

/// `SystemTime::duration_since(UNIX_EPOCH)` in nanoseconds; for a time
/// before the epoch, the error's `duration()`, how far before it lies. What
/// it returns depends on the clock and is not stated.
#[verifier::external_body]
fn time_since_unix_epoch(time: &std::time::SystemTime) -> Timestamp {
    match time.duration_since(std::time::UNIX_EPOCH) {
        Ok(elapsed) => Timestamp { before_epoch: false, nanos: elapsed.as_nanos() },
        Err(earlier) => Timestamp { before_epoch: true, nanos: earlier.duration().as_nanos() },
    }
}

/// The current wall-clock time.
pub fn unix_now() -> Timestamp {
    time_since_unix_epoch(&system_time_now())
}

} // verus!
