//! A pausable accumulator of listening time.

use std::time::Duration;
use vstd::prelude::*;
use crate::time::{
    duration_as_secs, duration_nanos, duration_new, duration_secs, duration_subsec,
    duration_subsec_nanos, NANOS_PER_SEC,
};

verus! {

/// Accumulated time is held as whole seconds plus a nanosecond remainder
/// below one second, as `Duration` holds it.
pub struct ElapsedTimer {
    accumulated_secs: u64,
    accumulated_nanos: u32,
    running: bool,
}

impl ElapsedTimer {
    /// The accumulated time in nanoseconds.
    pub closed spec fn elapsed_nanos(&self) -> int {
        self.accumulated_secs as int * NANOS_PER_SEC as int + self.accumulated_nanos as int
    }

    pub closed spec fn running_spec(&self) -> bool {
        self.running
    }

    pub closed spec fn wf(&self) -> bool {
        self.accumulated_nanos < NANOS_PER_SEC
    }

    /// The largest time a `Duration` can hold, in nanoseconds.
    pub open spec fn max_nanos() -> int {
        u64::MAX as int * NANOS_PER_SEC as int + (NANOS_PER_SEC - 1) as int
    }

    pub fn new() -> (t: Self)
        ensures
            t.wf(),
            t.elapsed_nanos() == 0,
            !t.running_spec(),
    {
        ElapsedTimer { accumulated_secs: 0, accumulated_nanos: 0, running: false }
    }

    pub fn reset(&mut self)
        ensures
            final(self).wf(),
            final(self).elapsed_nanos() == 0,
            !final(self).running_spec(),
    {
        self.accumulated_secs = 0;
        self.accumulated_nanos = 0;
        self.running = false;
    }

    pub fn start(&mut self)
        requires
            old(self).wf(),
        ensures
            final(self).wf(),
            final(self).elapsed_nanos() == old(self).elapsed_nanos(),
            final(self).running_spec(),
    {
        self.running = true;
    }

    pub fn pause(&mut self)
        requires
            old(self).wf(),
        ensures
            final(self).wf(),
            final(self).elapsed_nanos() == old(self).elapsed_nanos(),
            !final(self).running_spec(),
    {
        self.running = false;
    }

    /// Adds `delta` while running; a paused timer and a zero delta leave it
    /// unchanged. The sum must stay within what a `Duration` holds.
    pub fn tick(&mut self, delta: Duration)
        requires
            old(self).wf(),
            old(self).running_spec() ==> old(self).elapsed_nanos() + duration_nanos(delta)
                <= Self::max_nanos(),
        ensures
            final(self).wf(),
            final(self).running_spec() == old(self).running_spec(),
            final(self).elapsed_nanos() == if old(self).running_spec() {
                old(self).elapsed_nanos() + duration_nanos(delta)
            } else {
                old(self).elapsed_nanos()
            },
    {
        let secs = duration_as_secs(&delta);
        let nanos = duration_subsec(&delta);
        if self.running && !(secs == 0 && nanos == 0) {
            let total_nanos = self.accumulated_nanos + nanos;
            if total_nanos >= NANOS_PER_SEC as u32 {
                self.accumulated_secs = self.accumulated_secs + secs + 1;
                self.accumulated_nanos = total_nanos - NANOS_PER_SEC as u32;
            } else {
                self.accumulated_secs = self.accumulated_secs + secs;
                self.accumulated_nanos = total_nanos;
            }
        }
    }

    pub fn elapsed(&self) -> (d: Duration)
        requires
            self.wf(),
        ensures
            duration_nanos(d) == self.elapsed_nanos(),
    {
        duration_new(self.accumulated_secs, self.accumulated_nanos)
    }

    pub fn is_running(&self) -> (b: bool)
        ensures
            b == self.running_spec(),
    {
        self.running
    }
}

} // verus!
