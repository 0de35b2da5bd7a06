//! A flag that becomes true once, a fixed time after it was armed, and stays
//! true. Time is what the caller says it is: every question takes the
//! reading of a clock that never runs backwards, in milliseconds.

use vstd::prelude::*;

verus! {

/// What the clocks say at one moment: a clock that never runs backwards, in
/// milliseconds, for the timers, and the time of day, in seconds since the
/// Unix epoch, for the records.
#[derive(Clone, Copy, Debug)]
pub struct Clock {
    pub millis: u64,
    pub unix_seconds: i64,
}

/// Milliseconds in a second.
pub const MILLIS_PER_SECOND: u64 = 1000;

/// A fire-once readiness flag. It starts false. Once armed, it is true from
/// the moment the duration has passed; once fired, it is true at once.
/// Nothing makes it false again.
#[derive(Clone, Copy, Debug)]
pub struct DeferredSignal {
    armed: bool,
    armed_at: u64,
    wait: u64,
    fired: bool,
}

impl DeferredSignal {
    /// Whether the signal has been armed.
    pub closed spec fn is_armed(&self) -> bool {
        self.armed
    }

    /// Whether the signal has been fired by hand.
    pub closed spec fn is_fired(&self) -> bool {
        self.fired
    }

    /// The clock reading at which the signal was armed.
    pub closed spec fn armed_at(&self) -> u64 {
        self.armed_at
    }

    /// The milliseconds that have to pass after arming.
    pub closed spec fn wait(&self) -> u64 {
        self.wait
    }

    /// Whether the signal is true at the clock reading `now`.
    pub open spec fn ready_at(&self, now: u64) -> bool {
        self.is_fired() || (self.is_armed() && now >= self.armed_at() && now - self.armed_at() >= self.wait())
    }

    /// The milliseconds of a duration in seconds, as far as they can be
    /// counted.
    pub open spec fn millis_of(seconds: u64) -> u64 {
        if seconds * MILLIS_PER_SECOND <= u64::MAX {
            (seconds * MILLIS_PER_SECOND) as u64
        } else {
            u64::MAX
        }
    }

    /// A signal that is false and stays so until it is armed or fired.
    pub fn new() -> (signal: Self)
        ensures
            !signal.is_armed(),
            !signal.is_fired(),
            forall|now: u64| !signal.ready_at(now),
    {
        DeferredSignal { armed: false, armed_at: 0, wait: 0, fired: false }
    }

    /// Arms the signal at the clock reading `now`, for `duration` seconds.
    /// A signal that is armed already keeps its first timer.
    pub fn arm(&mut self, duration: u64, now: u64)
        ensures
            final(self).is_armed(),
            final(self).is_fired() == old(self).is_fired(),
            old(self).is_armed() ==> *final(self) == *old(self),
            !old(self).is_armed() ==> final(self).armed_at() == now && final(self).wait() == Self::millis_of(
                duration,
            ),
    {
        if !self.armed {
            self.armed = true;
            self.armed_at = now;
            self.wait = if duration <= u64::MAX / MILLIS_PER_SECOND {
                duration * MILLIS_PER_SECOND
            } else {
                u64::MAX
            };
        }
    }

    /// Makes the signal true at once.
    pub fn fire(&mut self)
        ensures
            final(self).is_fired(),
            final(self).is_armed() == old(self).is_armed(),
            final(self).armed_at() == old(self).armed_at(),
            final(self).wait() == old(self).wait(),
    {
        self.fired = true;
    }

    /// Whether the signal is true at the clock reading `now`. This reads
    /// only; it can be asked as often as one likes.
    pub fn is_ready(&self, now: u64) -> (ready: bool)
        ensures
            ready == self.ready_at(now),
    {
        self.fired || (self.armed && now >= self.armed_at && now - self.armed_at >= self.wait)
    }

    /// **Fires once and stays.** A signal that is true at one clock reading is
    /// true at every later one.
    pub proof fn lemma_stays_ready(&self, now: u64, later: u64)
        requires
            self.ready_at(now),
            now <= later,
        ensures
            self.ready_at(later),
    {
    }

    /// **Timer-driven.** A signal armed for a number of seconds, and not fired
    /// by hand, is false before that many seconds have passed and true from
    /// then on.
    pub proof fn lemma_ready_after_wait(&self, now: u64)
        requires
            self.is_armed(),
            !self.is_fired(),
            now >= self.armed_at(),
        ensures
            self.ready_at(now) == (now - self.armed_at() >= self.wait()),
    {
    }
}

/// Arms `time_is_up` at the clock reading `now`, for `duration` seconds.
pub fn wait_for_seconds(duration: u64, now: u64, time_is_up: &mut DeferredSignal)
    ensures
        final(time_is_up).is_armed(),
        final(time_is_up).is_fired() == old(time_is_up).is_fired(),
        old(time_is_up).is_armed() ==> *final(time_is_up) == *old(time_is_up),
        !old(time_is_up).is_armed() ==> final(time_is_up).armed_at() == now && final(time_is_up).wait()
            == DeferredSignal::millis_of(duration),
{
    time_is_up.arm(duration, now);
}

} // verus!
