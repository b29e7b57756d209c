//! File change detection by modification time, with a debounce interval and
//! an optional start-up cooldown.

use std::time::{Duration, Instant, SystemTime};
use vstd::prelude::*;
use crate::time::{
    duration_lt, duration_nanos, instant_before, instant_checked_add, instant_duration_since,
    instant_gap, instant_lt, instant_plus, system_time_eq,
};

verus! {

/// Tracks a file's modification time. A change is reported once the time
/// has stayed the same for the whole debounce interval, and never during
/// the cooldown.
pub struct MtimeDebounce {
    pub last_mtime: Option<SystemTime>,
    pub pending_since: Option<Instant>,
    pub debounce: Duration,
    pub cooldown_until: Option<Instant>,
}

/// `now` falls within the cooldown.
pub open spec fn in_cooldown(d: &MtimeDebounce, now: Instant) -> bool {
    match d.cooldown_until {
        Some(until) => instant_before(now, until),
        None => false,
    }
}

/// The observed modification time differs from the recorded one; a missing
/// observation is no change.
pub open spec fn mtime_differs(current: Option<SystemTime>, last: Option<SystemTime>) -> bool {
    match (current, last) {
        (Some(c), Some(l)) => c != l,
        (Some(_), None) => true,
        _ => false,
    }
}

/// One check: nothing during the cooldown, nor while the modification time
/// cannot be read; a new modification time starts
/// the debounce interval; a report once the interval has passed since the
/// last change, which ends the pending change.
pub open spec fn debounce_step(d: MtimeDebounce, current: Option<SystemTime>, now: Instant) -> (bool, MtimeDebounce) {
    if in_cooldown(&d, now) {
        (false, d)
    } else if current is None {
        (false, d)
    } else if mtime_differs(current, d.last_mtime) {
        (false, MtimeDebounce { last_mtime: current, pending_since: Some(now), ..d })
    } else {
        match d.pending_since {
            None => (false, d),
            Some(p) => if duration_nanos(instant_gap(now, p)) < duration_nanos(d.debounce) {
                (false, d)
            } else {
                (true, MtimeDebounce { pending_since: None, ..d })
            },
        }
    }
}

impl MtimeDebounce {
    pub fn new(debounce: Duration, cooldown: Option<Duration>, now: Instant) -> (d: Self)
        requires
            cooldown matches Some(c) ==> instant_plus(now, c) is Some,
        ensures
            d.last_mtime is None,
            d.pending_since is None,
            d.debounce == debounce,
            d.cooldown_until == match cooldown {
                Some(c) => instant_plus(now, c),
                None => None,
            },
    {
        let cooldown_until = match cooldown {
            Some(c) => instant_checked_add(&now, &c),
            None => None,
        };
        MtimeDebounce { last_mtime: None, pending_since: None, debounce, cooldown_until }
    }

    /// Whether a settled change is ready to be processed.
    pub fn check(&mut self, current_mtime: Option<SystemTime>, now: Instant) -> (ready: bool)
        ensures
            (ready, *final(self)) == debounce_step(*old(self), current_mtime, now),
    {
        if self.is_in_cooldown(&now) {
            return false;
        }
        if current_mtime.is_none() {
            return false;
        }
        if self.mtime_changed(&current_mtime) {
            self.last_mtime = current_mtime;
            self.pending_since = Some(now);
            return false;
        }
        self.is_debounce_elapsed(&now)
    }

    fn is_in_cooldown(&self, now: &Instant) -> (b: bool)
        ensures
            b == in_cooldown(self, *now),
    {
        match &self.cooldown_until {
            Some(until) => instant_lt(now, until),
            None => false,
        }
    }

    fn mtime_changed(&self, current: &Option<SystemTime>) -> (b: bool)
        ensures
            b == mtime_differs(*current, self.last_mtime),
    {
        match (current, &self.last_mtime) {
            (Some(cur), Some(last)) => !system_time_eq(cur, last),
            (Some(_), None) => true,
            _ => false,
        }
    }

    fn is_debounce_elapsed(&mut self, now: &Instant) -> (b: bool)
        ensures
            final(self).last_mtime == old(self).last_mtime,
            final(self).debounce == old(self).debounce,
            final(self).cooldown_until == old(self).cooldown_until,
            match old(self).pending_since {
                None => !b && final(self).pending_since is None,
                Some(p) => if duration_nanos(instant_gap(*now, p)) < duration_nanos(
                    old(self).debounce,
                ) {
                    !b && final(self).pending_since == Some(p)
                } else {
                    b && final(self).pending_since is None
                },
            },
    {
        let pending = match &self.pending_since {
            Some(t) => *t,
            None => return false,
        };
        let waited = instant_duration_since(now, &pending);
        if duration_lt(&waited, &self.debounce) {
            return false;
        }
        self.pending_since = None;
        true
    }
}

/// A change is reported at most once: after a report, a check that sees no
/// new modification time reports nothing.
pub proof fn lemma_fires_once(
    d: MtimeDebounce,
    current: Option<SystemTime>,
    now: Instant,
    later_mtime: Option<SystemTime>,
    later: Instant,
)
    requires
        debounce_step(d, current, now).0,
        !mtime_differs(later_mtime, debounce_step(d, current, now).1.last_mtime),
    ensures
        !debounce_step(debounce_step(d, current, now).1, later_mtime, later).0,
{
}

/// A missing modification time never causes a report, and leaves the
/// tracker as it was: a pending change stays pending.
pub proof fn lemma_missing_file_reports_nothing(d: MtimeDebounce, now: Instant)
    ensures
        !debounce_step(d, None, now).0,
        debounce_step(d, None, now).1 == d,
{
}

} // verus!
