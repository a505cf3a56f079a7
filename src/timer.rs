use vstd::prelude::*;

verus! {

/// Nanoseconds in one second.
pub const NANOS_PER_SEC: u64 = 1_000_000_000;

/// A single-shot countdown. Time is counted in whole nanoseconds.
///
/// `finished` is set by the tick that brings `elapsed_nanos` up to
/// `duration_nanos`; a finished timer ignores further ticks until reset.
#[derive(Clone, Copy, Debug, PartialEq, Eq, Structural)]
pub struct Timer {
    pub duration_nanos: u64,
    pub elapsed_nanos: u64,
    pub finished: bool,
}

impl Timer {
    pub open spec fn wf(self) -> bool {
        &&& self.elapsed_nanos <= self.duration_nanos
        &&& self.finished ==> self.elapsed_nanos == self.duration_nanos
    }

    /// A timer of the given length that has not started.
    pub open spec fn fresh(duration_nanos: u64) -> Timer {
        Timer { duration_nanos, elapsed_nanos: 0, finished: false }
    }

    /// The timer after a tick of `delta` nanoseconds.
    pub open spec fn ticked(self, delta: u64) -> Timer {
        if self.finished {
            self
        } else {
            let e = if self.elapsed_nanos + delta >= self.duration_nanos {
                self.duration_nanos
            } else {
                (self.elapsed_nanos + delta) as u64
            };
            Timer { duration_nanos: self.duration_nanos, elapsed_nanos: e, finished: e >= self.duration_nanos }
        }
    }

    /// Whether a tick of `delta` nanoseconds is the one that finishes the timer.
    pub open spec fn finishes_on(self, delta: u64) -> bool {
        !self.finished && self.ticked(delta).finished
    }

    pub fn once(duration_nanos: u64) -> (r: Timer)
        ensures
            r == Timer::fresh(duration_nanos),
            r.wf(),
    {
        Timer { duration_nanos, elapsed_nanos: 0, finished: false }
    }

    /// Advances the timer; returns whether this tick finished it.
    pub fn tick(&mut self, delta: u64) -> (just_finished: bool)
        requires
            old(self).wf(),
        ensures
            *final(self) == old(self).ticked(delta),
            final(self).wf(),
            just_finished == old(self).finishes_on(delta),
    {
        if self.finished {
            return false;
        }
        if delta >= self.duration_nanos - self.elapsed_nanos {
            self.elapsed_nanos = self.duration_nanos;
        } else {
            self.elapsed_nanos = self.elapsed_nanos + delta;
        }
        self.finished = self.elapsed_nanos >= self.duration_nanos;
        self.finished
    }

    /// Sets the timer back to its unstarted state, keeping its length.
    pub fn reset(&mut self)
        ensures
            *final(self) == Timer::fresh(old(self).duration_nanos),
            final(self).wf(),
    {
        self.elapsed_nanos = 0;
        self.finished = false;
    }
}

} // verus!
