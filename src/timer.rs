use vstd::prelude::*;

verus! {

/// A one-shot countdown: it accumulates elapsed milliseconds and fires once
/// the elapsed time reaches the wait time. Once fired it stays fired.
#[derive(Clone, Copy, Debug, PartialEq, Eq)]
pub struct Timer {
    pub wait_time: u32,
    pub elapsed_time: u64,
    pub triggered: bool,
}

impl Timer {
    /// A running timer has not yet used more than its wait time, and a fired
    /// one overshot it by at most one step.
    pub open spec fn wf(&self) -> bool {
        &&& !self.triggered ==> self.elapsed_time <= self.wait_time
        &&& self.elapsed_time <= self.wait_time + u32::MAX
    }

    /// The timer after `dt` more milliseconds.
    pub open spec fn updated(self, dt: u32) -> Timer {
        if self.triggered {
            self
        } else {
            let e = self.elapsed_time + dt;
            Timer { elapsed_time: e as u64, triggered: e >= self.wait_time, ..self }
        }
    }

    /// A running timer of `wait_time` milliseconds with nothing elapsed.
    pub fn new(wait_time: u32) -> (r: Timer)
        ensures
            r.wf(),
            r.wait_time == wait_time,
            r.elapsed_time == 0,
            !r.triggered,
    {
        Timer { wait_time, elapsed_time: 0, triggered: false }
    }

    /// Advances the timer by `dt` milliseconds. A fired timer is left as it is.
    pub fn update(&mut self, dt: u32)
        requires
            old(self).wf(),
        ensures
            final(self).wf(),
            *final(self) == old(self).updated(dt),
            final(self).wait_time == old(self).wait_time,
            old(self).triggered ==> *final(self) == *old(self),
            !old(self).triggered ==> {
                &&& final(self).elapsed_time == old(self).elapsed_time + dt
                &&& final(self).triggered == (final(self).elapsed_time >= final(self).wait_time)
            },
    {
        if self.triggered {
            return;
        }
        self.elapsed_time = self.elapsed_time + dt as u64;
        if self.elapsed_time >= self.wait_time as u64 {
            self.triggered = true;
        }
    }

    /// Milliseconds left before the wait time; negative once it has passed.
    pub fn remaining_time(&self) -> (r: i64)
        requires
            self.wf(),
        ensures
            r == self.wait_time - self.elapsed_time,
    {
        self.wait_time as i64 - self.elapsed_time as i64
    }
}

} // verus!
