//! A repeating countdown over whole nanoseconds.

use vstd::prelude::*;

verus! {

/// What a [`Timer`] stands for: its period, the time gathered since it was
/// last armed, and whether the latest tick reached the period.
pub struct TimerView {
    pub period: nat,
    pub elapsed: nat,
    pub completed: bool,
}

impl TimerView {
    /// The period is positive and the gathered time lies below it.
    pub open spec fn wf(self) -> bool {
        0 < self.period && self.elapsed < self.period
    }

    /// A timer that has just been armed.
    pub open spec fn armed(period: nat) -> TimerView {
        TimerView { period, elapsed: 0, completed: false }
    }

    /// One tick: the gathered time grows by `delta`; where it reaches the
    /// period the timer completes and starts again from zero, and whatever
    /// went beyond the period is dropped.
    pub open spec fn tick(self, delta: nat) -> TimerView {
        if self.elapsed + delta >= self.period {
            TimerView { period: self.period, elapsed: 0, completed: true }
        } else {
            TimerView { period: self.period, elapsed: self.elapsed + delta, completed: false }
        }
    }
}

/// A repeating timer with a fixed period in nanoseconds.
#[derive(Clone, Copy, Debug)]
pub struct Timer {
    period: u64,
    elapsed: u64,
    completed: bool,
}

impl View for Timer {
    type V = TimerView;

    closed spec fn view(&self) -> TimerView {
        TimerView {
            period: self.period as nat,
            elapsed: self.elapsed as nat,
            completed: self.completed,
        }
    }
}

impl Timer {
    /// Arms a timer with the given period.
    pub fn new(period: u64) -> (timer: Timer)
        requires
            period > 0,
        ensures
            timer@ == TimerView::armed(period as nat),
            timer@.wf(),
    {
        Timer { period, elapsed: 0, completed: false }
    }

    /// Advances the timer by `delta` nanoseconds.
    pub fn tick(&mut self, delta: u64)
        requires
            old(self)@.wf(),
        ensures
            final(self)@ == old(self)@.tick(delta as nat),
            final(self)@.wf(),
    {
        if delta >= self.period - self.elapsed {
            self.elapsed = 0;
            self.completed = true;
        } else {
            self.elapsed = self.elapsed + delta;
            self.completed = false;
        }
    }

    /// Whether the latest tick reached the period.
    pub fn just_completed(&self) -> (completed: bool)
        ensures
            completed == self@.completed,
    {
        self.completed
    }

    /// Arms the timer anew with another period.
    pub fn reset(&mut self, period: u64)
        requires
            period > 0,
        ensures
            final(self)@ == TimerView::armed(period as nat),
            final(self)@.wf(),
    {
        self.period = period;
        self.elapsed = 0;
        self.completed = false;
    }

    /// The period in nanoseconds.
    pub fn period(&self) -> (period: u64)
        ensures
            period == self@.period,
    {
        self.period
    }

    /// The nanoseconds gathered since the timer was last armed.
    pub fn elapsed(&self) -> (elapsed: u64)
        ensures
            elapsed == self@.elapsed,
    {
        self.elapsed
    }
}

} // verus!
