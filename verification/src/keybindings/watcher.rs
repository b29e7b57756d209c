//! Hot reload of the keybindings file: the decisions of the watcher, which
//! the caller feeds with the file's modification time and contents.

use std::path::PathBuf;
use std::time::{Instant, SystemTime};
use vstd::prelude::*;
use crate::keybindings::registry::{entries_warnings, kept_bindings, malformed_warning, strings_view, valid_bindings, KeybindingRegistry, RawEntry};
use crate::keybindings::{bindings_view, KeyBinding, KeyBindingView};
use crate::mtime_debounce::mtime_differs;
use crate::text::{str_chars, string_from_chars};
use crate::time::{duration_from_millis, duration_lt, duration_nanos, instant_duration_since, instant_gap, system_time_eq};

verus! {

/// How long the modification time must stay the same before a reload.
pub const DEBOUNCE_MILLIS: u64 = 500;

/// The outcome of a check for changes of the keybindings file.
#[derive(Debug)]
pub enum KeybindingReloadResult {
    /// The file has not changed since the last check.
    Unchanged,
    /// The file changed and was read without a warning.
    Reloaded(Vec<KeyBinding>),
    /// The file changed but could not be read, or gave warnings.
    Error(String),
}

/// Tracks the keybindings file's modification time for hot reload.
pub struct KeybindingWatcher {
    pub path: Option<PathBuf>,
    pub last_mtime: Option<SystemTime>,
    pub pending_since: Option<Instant>,
}

/// One check: with no file nothing happens; a new modification time starts
/// the debounce interval; once the interval has passed since the last
/// change, the file is due to be read, which ends the pending change.
pub open spec fn watch_step(w: KeybindingWatcher, current: Option<SystemTime>, now: Instant) -> (bool, KeybindingWatcher) {
    if w.path is None {
        (false, w)
    } else if mtime_differs(current, w.last_mtime) {
        (false, KeybindingWatcher { last_mtime: current, pending_since: Some(now), ..w })
    } else {
        match w.pending_since {
            None => (false, w),
            Some(p) => if duration_nanos(instant_gap(now, p)) < DEBOUNCE_MILLIS * 1_000_000 {
                (false, w)
            } else {
                (true, KeybindingWatcher { pending_since: None, ..w })
            },
        }
    }
}

/// `parts` joined with `sep` between each two.
pub open spec fn joined(parts: Seq<Seq<char>>, sep: Seq<char>) -> Seq<char>
    decreases parts.len(),
{
    if parts.len() == 0 {
        Seq::empty()
    } else if parts.len() == 1 {
        parts[0]
    } else {
        joined(parts.drop_last(), sep) + sep + parts.last()
    }
}

/// What reading the file gives: an error where it could not be read (its
/// message), the bindings where the entries gave no warning, else the
/// warnings joined by `; `.
pub open spec fn reload_outcome(read: Result<Result<Vec<RawEntry>, String>, String>) -> Result<Seq<KeyBindingView>, Seq<char>> {
    match read {
        Err(e) => Err(e@),
        Ok(Err(e)) => Err(malformed_warning(e@)),
        Ok(Ok(entries)) => if entries_warnings(entries@).len() == 0 {
            Ok(kept_bindings(valid_bindings(entries@)))
        } else {
            Err(joined(entries_warnings(entries@), "; "@))
        },
    }
}

impl KeybindingWatcher {
    pub fn new(path: Option<PathBuf>) -> (w: Self)
        ensures
            w.path == path,
            w.last_mtime is None,
            w.pending_since is None,
    {
        KeybindingWatcher { path, last_mtime: None, pending_since: None }
    }

    /// Whether the file is due to be read, given its modification time now
    /// (`None` where it cannot be read). The debounce interval is
    /// `DEBOUNCE_MILLIS`.
    pub fn check_reload(&mut self, current_mtime: Option<SystemTime>, now: Instant) -> (due: bool)
        ensures
            (due, *final(self)) == watch_step(*old(self), current_mtime, now),
    {
        if self.path.is_none() {
            return false;
        }
        let changed = match (&current_mtime, &self.last_mtime) {
            (Some(cur), Some(last)) => !system_time_eq(cur, last),
            (Some(_), None) => true,
            _ => false,
        };
        if changed {
            self.last_mtime = current_mtime;
            self.pending_since = Some(now);
            return false;
        }
        let pending = match &self.pending_since {
            Some(t) => *t,
            None => return false,
        };
        let waited = instant_duration_since(&now, &pending);
        let debounce = duration_from_millis(DEBOUNCE_MILLIS);
        if duration_lt(&waited, &debounce) {
            return false;
        }
        self.pending_since = None;
        true
    }

    /// The result of reading the file: `Err` with the message where it could
    /// not be read, else what its JSON parse gave.
    pub fn reload_result(read: Result<Result<Vec<RawEntry>, String>, String>) -> (r: KeybindingReloadResult)
        ensures
            match reload_outcome(read) {
                Ok(b) => r matches KeybindingReloadResult::Reloaded(v) && bindings_view(v@) == b,
                Err(e) => r matches KeybindingReloadResult::Error(msg) && msg@ == e,
            },
    {
        let parsed = match read {
            Err(e) => return KeybindingReloadResult::Error(e),
            Ok(p) => p,
        };
        let ghost p = parsed;
        let mut warnings: Vec<String> = Vec::new();
        let registry = KeybindingRegistry::from_parsed_entries(parsed, &mut warnings);
        assert(strings_view(Seq::<String>::empty()) =~= Seq::<Seq<char>>::empty());
        if warnings.len() > 0 {
            proof {
                if let Ok(es) = p {
                    assert(strings_view(warnings@) =~= entries_warnings(es@));
                }
            }
            return KeybindingReloadResult::Error(join_warnings(&warnings));
        }
        proof {
            if let Err(e) = p {
                assert(strings_view(warnings@).len() == 1);
            }
            if let Ok(es) = p {
                assert(strings_view(warnings@) =~= entries_warnings(es@));
            }
        }
        KeybindingReloadResult::Reloaded(registry.customs)
    }
}

/// The warnings joined by `; `.
fn join_warnings(warnings: &Vec<String>) -> (r: String)
    requires
        warnings@.len() > 0,
    ensures
        r@ == joined(strings_view(warnings@), "; "@),
{
    let sep = str_chars("; ");
    let mut out = str_chars(warnings[0].as_str());
    let ghost ws = strings_view(warnings@);
    assert(ws.take(1) =~= seq![ws[0]]);
    let mut i: usize = 1;
    while i < warnings.len()
        invariant
            1 <= i <= warnings.len(),
            ws == strings_view(warnings@),
            sep@ == "; "@,
            out@ == joined(ws.take(i as int), "; "@),
        decreases warnings.len() - i,
    {
        let w = str_chars(warnings[i].as_str());
        let ghost before = out@;
        let mut s = sep.clone();
        out.append(&mut s);
        let mut w2 = w.clone();
        out.append(&mut w2);
        assert(ws.take(i + 1).drop_last() =~= ws.take(i as int));
        assert(ws.take(i + 1).last() == ws[i as int]);
        i += 1;
    }
    assert(ws.take(warnings.len() as int) =~= ws);
    string_from_chars(out.as_slice())
}

/// A change is read at most once: after the file was due, a check that
/// sees no new modification time finds nothing due.
pub proof fn lemma_reload_fires_once(w: KeybindingWatcher, current: Option<SystemTime>, now: Instant, later_mtime: Option<SystemTime>, later: Instant)
    requires
        watch_step(w, current, now).0,
        !mtime_differs(later_mtime, watch_step(w, current, now).1.last_mtime),
    ensures
        !watch_step(watch_step(w, current, now).1, later_mtime, later).0,
{
}

/// A file that cannot be read never becomes due unless a change was
/// already pending.
pub proof fn lemma_missing_file_is_never_due(w: KeybindingWatcher, now: Instant)
    requires
        w.pending_since is None,
    ensures
        !watch_step(w, None, now).0,
        watch_step(w, None, now).1 == w,
{
}

/// The watcher after a run of checks, each given the modification time seen
/// and the time of the check.
pub open spec fn watch_after(w: KeybindingWatcher, checks: Seq<(Option<SystemTime>, Instant)>) -> KeybindingWatcher
    decreases checks.len(),
{
    if checks.len() == 0 {
        w
    } else {
        watch_step(watch_after(w, checks.drop_last()), checks.last().0, checks.last().1).1
    }
}

/// The `i`-th check of the run finds the file due to be read.
pub open spec fn due_at(w: KeybindingWatcher, checks: Seq<(Option<SystemTime>, Instant)>, i: int) -> bool {
    watch_step(watch_after(w, checks.take(i)), checks[i].0, checks[i].1).0
}

/// The `i`-th check of the run sees a new modification time.
pub open spec fn change_seen_at(w: KeybindingWatcher, checks: Seq<(Option<SystemTime>, Instant)>, i: int) -> bool {
    mtime_differs(checks[i].0, watch_after(w, checks.take(i)).last_mtime)
}

proof fn lemma_quiet_run_stays_idle(
    w: KeybindingWatcher,
    checks: Seq<(Option<SystemTime>, Instant)>,
    i: int,
    m: int,
)
    requires
        0 <= i < m <= checks.len(),
        due_at(w, checks, i),
        forall|k: int| i < k < m ==> !change_seen_at(w, checks, k),
    ensures
        watch_after(w, checks.take(m)).pending_since is None,
    decreases m - i,
{
    assert(checks.take(m).drop_last() =~= checks.take(m - 1));
    assert(checks.take(m).last() == checks[m - 1]);
    if m > i + 1 {
        lemma_quiet_run_stays_idle(w, checks, i, m - 1);
        assert(!change_seen_at(w, checks, m - 1));
    }
}

/// Across any run of checks, each change of the file is read at most once:
/// between two checks that find the file due, some check in between saw a
/// new modification time. A check finds the file due only when a change is
/// pending and the debounce interval has passed since it was seen.
pub proof fn lemma_one_reload_per_change(
    w: KeybindingWatcher,
    checks: Seq<(Option<SystemTime>, Instant)>,
    i: int,
    j: int,
)
    requires
        0 <= i < j < checks.len(),
        due_at(w, checks, i),
        due_at(w, checks, j),
    ensures
        exists|k: int| i < k < j && change_seen_at(w, checks, k),
        watch_after(w, checks.take(j)).pending_since matches Some(p) && duration_nanos(
            instant_gap(checks[j].1, p),
        ) >= DEBOUNCE_MILLIS * 1_000_000,
{
    if !exists|k: int| i < k < j && change_seen_at(w, checks, k) {
        lemma_quiet_run_stays_idle(w, checks, i, j);
        assert(false);
    }
}

} // verus!
