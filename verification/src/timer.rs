//! A frame-stepped timer fed by the host clock's per-frame delta.

use vstd::prelude::*;

verus! {

/// Accumulates delta time and fires when the accumulated time reaches its
/// duration.  A repeating timer then starts over from zero; a one-shot timer
/// freezes and never fires again.  Time is in integer units (the caller picks
/// the granularity, for example microseconds).
#[derive(Clone, Copy, PartialEq, Eq, Structural, Debug)]
pub struct Timer {
    pub duration: u64,
    pub elapsed: u64,
    pub repeating: bool,
    pub finished: bool,
}

impl Timer {
    /// The elapsed time never passes the duration, and only a one-shot timer
    /// can be finished.  By construction no tick can overflow or underflow the
    /// elapsed time.
    pub open spec fn wf(self) -> bool {
        &&& self.elapsed <= self.duration
        &&& self.finished ==> !self.repeating
    }

    /// Whether feeding `delta` into the timer makes it fire.
    pub open spec fn fires(self, delta: u64) -> bool {
        !self.finished && self.elapsed + delta >= self.duration
    }

    /// The timer after one tick of `delta`: elapsed time accumulates until the
    /// duration is reached; a fire resets a repeating timer to zero and
    /// freezes a one-shot timer at its duration.
    pub open spec fn tick_spec(self, delta: u64) -> Timer {
        if self.finished {
            self
        } else if self.elapsed + delta >= self.duration {
            if self.repeating {
                Timer { elapsed: 0, ..self }
            } else {
                Timer { elapsed: self.duration, finished: true, ..self }
            }
        } else {
            Timer { elapsed: (self.elapsed + delta) as u64, ..self }
        }
    }

    pub fn new(duration: u64, repeating: bool) -> (t: Timer)
        ensures
            t.duration == duration,
            t.repeating == repeating,
            t.elapsed == 0,
            !t.finished,
            t.wf(),
    {
        Timer { duration, elapsed: 0, repeating, finished: false }
    }

    /// Feed one frame's delta time into the timer.  On a fire, a repeating
    /// timer resets its elapsed time to zero; a one-shot timer freezes at its
    /// duration.  A finished timer ignores the tick.
    pub fn tick(&mut self, delta: u64) -> (fired: bool)
        requires
            old(self).wf(),
        ensures
            fired == old(self).fires(delta),
            *final(self) == old(self).tick_spec(delta),
            final(self).wf(),
    {
        if self.finished {
            return false;
        }
        if delta >= self.duration - self.elapsed {
            if self.repeating {
                self.elapsed = 0;
            } else {
                self.elapsed = self.duration;
                self.finished = true;
            }
            true
        } else {
            self.elapsed = self.elapsed + delta;
            false
        }
    }
}

} // verus!
