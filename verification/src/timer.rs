//! A repeating timer over an integer clock.
//!
//! Time is counted in nanoseconds. The timer is told how much time has passed by `tick`;
//! it never reads a clock itself.

use vstd::prelude::*;

verus! {

/// Nanoseconds in a millisecond.
pub const NANOS_PER_MILLI: u64 = 1_000_000;

/// What a timer holds, as plain numbers.
pub struct TimerView {
    /// The period, in nanoseconds.
    pub duration: nat,
    /// The time since the period last ran out, in nanoseconds.
    pub elapsed: nat,
    /// Whether the timer is stopped.
    pub paused: bool,
    /// Whether the period ran out during the last tick.
    pub just_finished: bool,
}

impl TimerView {
    /// A timer that has just been started with period `duration`.
    pub open spec fn started(duration: nat) -> TimerView {
        TimerView { duration, elapsed: 0, paused: false, just_finished: false }
    }

    /// The timer after `delta` nanoseconds have passed. A paused timer does not advance
    /// and does not finish. A running one finishes when the time since the last period
    /// reaches the period, and carries the remainder into the next period.
    pub open spec fn ticked(self, delta: nat) -> TimerView {
        if self.paused {
            TimerView { just_finished: false, ..self }
        } else {
            TimerView {
                elapsed: (self.elapsed + delta) % self.duration,
                just_finished: self.elapsed + delta >= self.duration,
                ..self
            }
        }
    }
}

/// A repeating timer. Its period is positive, and the time it has counted since the
/// last period ran out is less than the period.
pub struct Timer {
    duration: u64,
    elapsed: u64,
    paused: bool,
    just_finished: bool,
}

impl View for Timer {
    type V = TimerView;

    closed spec fn view(&self) -> TimerView {
        TimerView {
            duration: self.duration as nat,
            elapsed: self.elapsed as nat,
            paused: self.paused,
            just_finished: self.just_finished,
        }
    }
}

impl Timer {
    #[verifier::type_invariant]
    spec fn valid(self) -> bool {
        0 < self.duration && self.elapsed < self.duration
    }

    /// A running timer with a period of `millis` milliseconds.
    pub fn from_millis(millis: u32) -> (timer: Timer)
        requires
            millis > 0,
        ensures
            timer@ == TimerView::started((millis * NANOS_PER_MILLI) as nat),
    {
        Timer {
            duration: (millis as u64) * NANOS_PER_MILLI,
            elapsed: 0,
            paused: false,
            just_finished: false,
        }
    }

    /// Lets `delta` nanoseconds pass.
    pub fn tick(&mut self, delta: u64)
        ensures
            final(self)@ == old(self)@.ticked(delta as nat),
    {
        proof {
            use_type_invariant(&*self);
        }
        if self.paused {
            self.just_finished = false;
        } else {
            let total: u128 = (self.elapsed as u128) + (delta as u128);
            let period: u128 = self.duration as u128;
            self.just_finished = total >= period;
            self.elapsed = (total % period) as u64;
        }
    }

    /// The period, in nanoseconds.
    pub fn duration(&self) -> (duration: u64)
        ensures
            duration == self@.duration,
            duration > 0,
    {
        proof {
            use_type_invariant(self);
        }
        self.duration
    }

    /// The time since the period last ran out, in nanoseconds.
    pub fn elapsed(&self) -> (elapsed: u64)
        ensures
            elapsed == self@.elapsed,
            elapsed < self@.duration,
    {
        proof {
            use_type_invariant(self);
        }
        self.elapsed
    }

    /// Whether the period ran out during the last tick.
    pub fn just_finished(&self) -> (finished: bool)
        ensures
            finished == self@.just_finished,
    {
        self.just_finished
    }

    /// Whether the timer is stopped.
    pub fn paused(&self) -> (paused: bool)
        ensures
            paused == self@.paused,
    {
        self.paused
    }

    /// Stops the timer: until it is unpaused, ticks leave it where it is.
    pub fn pause(&mut self)
        ensures
            final(self)@ == (TimerView { paused: true, ..old(self)@ }),
    {
        proof {
            use_type_invariant(&*self);
        }
        self.paused = true;
    }

    /// Lets the timer run again.
    pub fn unpause(&mut self)
        ensures
            final(self)@ == (TimerView { paused: false, ..old(self)@ }),
    {
        proof {
            use_type_invariant(&*self);
        }
        self.paused = false;
    }
}

} // verus!
