//! Hot reload of `pulsedeck.toml`: when the file is due to be read again.

use std::path::PathBuf;
use std::time::{Instant, SystemTime};
use vstd::prelude::*;
use crate::config_toml::AppConfig;
use crate::config_toml::parse::{config_matches_document, failure_location, parse_error_text, parse_toml, toml_failure};
use crate::mtime_debounce::mtime_differs;
use crate::time::{duration_from_millis, duration_lt, duration_nanos, instant_duration_since, instant_gap, system_time_eq};

verus! {

/// How long the modification time must stay the same before a reload.
pub const DEBOUNCE_MILLIS: u64 = 500;

/// Tracks the configuration file's modification time.
pub struct ConfigWatcher {
    pub last_mtime: Option<SystemTime>,
    pub config_path: PathBuf,
    pub pending_since: Option<Instant>,
}

/// One check: a new modification time starts the debounce interval; once
/// the interval has passed since the last change, the file is due to be
/// read, which ends the pending change.
pub open spec fn config_watch_step(w: ConfigWatcher, current: Option<SystemTime>, now: Instant) -> (bool, ConfigWatcher) {
    if mtime_differs(current, w.last_mtime) {
        (false, ConfigWatcher { last_mtime: current, pending_since: Some(now), ..w })
    } else {
        match w.pending_since {
            None => (false, w),
            Some(p) => if duration_nanos(instant_gap(now, p)) < DEBOUNCE_MILLIS * 1_000_000 {
                (false, w)
            } else {
                (true, ConfigWatcher { pending_since: None, ..w })
            },
        }
    }
}

impl ConfigWatcher {
    pub fn new(config_path: PathBuf) -> (w: Self)
        ensures
            w.config_path == config_path,
            w.last_mtime is None,
            w.pending_since is None,
    {
        ConfigWatcher { last_mtime: None, config_path, pending_since: None }
    }

    /// Whether the file is due to be read, given its modification time now
    /// (`None` where it cannot be read).
    pub fn check_reload(&mut self, current_mtime: Option<SystemTime>, now: Instant) -> (due: bool)
        ensures
            (due, *final(self)) == config_watch_step(*old(self), current_mtime, now),
    {
        let changed = match (&current_mtime, &self.last_mtime) {
            (Some(cur), Some(last)) => !system_time_eq(cur, last),
            (Some(_), None) => true,
            _ => false,
        };
        if changed {
            self.last_mtime = current_mtime;
            self.pending_since = Some(now);
            return false;
        }
        let pending = match &self.pending_since {
            Some(t) => *t,
            None => return false,
        };
        let waited = instant_duration_since(&now, &pending);
        let debounce = duration_from_millis(DEBOUNCE_MILLIS);
        if duration_lt(&waited, &debounce) {
            return false;
        }
        self.pending_since = None;
        true
    }
}

/// What a check for a changed configuration file gave.
#[derive(Debug)]
pub enum ReloadResult {
    /// Nothing to read yet.
    Unchanged,
    /// The file changed and was parsed.
    Reloaded(AppConfig, toml::Value),
    /// The file changed but could not be read or parsed.
    Error(String),
}

/// The outcome of reading the file once it is due, from its text or the
/// error of reading it: the parsed configuration, or the message.
pub fn reload_outcome(content: Result<String, String>) -> (r: ReloadResult)
    ensures
        match content {
            Err(e) => r matches ReloadResult::Error(m) && m@ == e@,
            Ok(text) => match toml_failure(text@) {
                Some((m, offset)) => {
                    let (line, col) = failure_location(vstd::utf8::encode_utf8(text@), offset);
                    r matches ReloadResult::Error(msg) && msg@ == parse_error_text(m, line, col)
                },
                None => r matches ReloadResult::Reloaded(config, _) && config_matches_document(config, text@),
            },
        },
{
    let text = match content {
        Ok(c) => c,
        Err(e) => return ReloadResult::Error(e),
    };
    match parse_toml(text.as_str()) {
        Ok(result) => ReloadResult::Reloaded(result.config, result.preserved),
        Err(e) => ReloadResult::Error(e.describe()),
    }
}

/// A change is read at most once: after the file was due, a check that
/// sees no new modification time finds nothing due.
pub proof fn lemma_reload_fires_once(w: ConfigWatcher, current: Option<SystemTime>, now: Instant, later_mtime: Option<SystemTime>, later: Instant)
    requires
        config_watch_step(w, current, now).0,
        !mtime_differs(later_mtime, config_watch_step(w, current, now).1.last_mtime),
    ensures
        !config_watch_step(config_watch_step(w, current, now).1, later_mtime, later).0,
{
}

/// A file that cannot be read never becomes due unless a change was
/// already pending.
pub proof fn lemma_missing_file_is_never_due(w: ConfigWatcher, now: Instant)
    requires
        w.pending_since is None,
    ensures
        !config_watch_step(w, None, now).0,
        config_watch_step(w, None, now).1 == w,
{
}

} // verus!
