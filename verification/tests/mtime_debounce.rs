use pulsedeck::mtime_debounce::MtimeDebounce;
use std::time::{Duration, Instant, SystemTime};

fn base_time() -> SystemTime {
    SystemTime::UNIX_EPOCH + Duration::from_secs(1_700_000_000)
}

#[test]
fn test_cooldown_suppresses_all_signals() {
    let now = Instant::now();
    let mut debounce = MtimeDebounce::new(
        Duration::from_millis(100),
        Some(Duration::from_millis(500)),
        now,
    );

    let mtime = base_time();

    // During cooldown, even with mtime changes, returns false
    assert!(!debounce.check(Some(mtime), now + Duration::from_millis(50)));
    assert!(!debounce.check(Some(mtime), now + Duration::from_millis(200)));
    assert!(!debounce.check(Some(mtime), now + Duration::from_millis(499)));
}

#[test]
fn test_debounce_prevents_premature_fire() {
    let now = Instant::now();
    let mut debounce = MtimeDebounce::new(Duration::from_millis(500), None, now);

    let mtime = base_time();

    // Detect change
    assert!(!debounce.check(Some(mtime), now));

    // Before debounce elapses — still false
    assert!(!debounce.check(Some(mtime), now + Duration::from_millis(100)));
    assert!(!debounce.check(Some(mtime), now + Duration::from_millis(200)));
    assert!(!debounce.check(Some(mtime), now + Duration::from_millis(499)));
}

#[test]
fn test_normal_change_detection_after_cooldown() {
    let now = Instant::now();
    let mut debounce = MtimeDebounce::new(
        Duration::from_millis(100),
        Some(Duration::from_millis(200)),
        now,
    );

    let mtime = base_time();

    // During cooldown — suppressed
    assert!(!debounce.check(Some(mtime), now + Duration::from_millis(100)));

    // After cooldown, detect change
    let after_cooldown = now + Duration::from_millis(200);
    assert!(!debounce.check(Some(mtime), after_cooldown));

    // After debounce elapses — fires
    let after_debounce = after_cooldown + Duration::from_millis(100);
    assert!(debounce.check(Some(mtime), after_debounce));
}

#[test]
fn test_none_mtime_returns_false() {
    let now = Instant::now();
    let mut debounce = MtimeDebounce::new(Duration::from_millis(100), None, now);

    // None mtime never triggers
    assert!(!debounce.check(None, now));
    assert!(!debounce.check(None, now + Duration::from_secs(10)));
}

#[test]
fn test_rapid_mtime_changes_reset_debounce_timer() {
    let now = Instant::now();
    let mut debounce = MtimeDebounce::new(Duration::from_millis(500), None, now);

    let mtime1 = base_time();
    let mtime2 = base_time() + Duration::from_secs(1);

    // First change
    assert!(!debounce.check(Some(mtime1), now));

    // Second change at 200ms — resets debounce
    let t1 = now + Duration::from_millis(200);
    assert!(!debounce.check(Some(mtime2), t1));

    // 500ms from first change is NOT enough (timer reset at t1)
    let t2 = now + Duration::from_millis(500);
    assert!(!debounce.check(Some(mtime2), t2));

    // 500ms from t1 — fires
    let t3 = t1 + Duration::from_millis(500);
    assert!(debounce.check(Some(mtime2), t3));
}

#[test]
fn test_fires_only_once_per_change() {
    let now = Instant::now();
    let mut debounce = MtimeDebounce::new(Duration::from_millis(100), None, now);

    let mtime = base_time();

    // Detect change
    assert!(!debounce.check(Some(mtime), now));

    // Fire after debounce
    assert!(debounce.check(Some(mtime), now + Duration::from_millis(100)));

    // No repeat firing without new change
    assert!(!debounce.check(Some(mtime), now + Duration::from_millis(200)));
    assert!(!debounce.check(Some(mtime), now + Duration::from_millis(1000)));
}

#[test]
fn test_new_without_cooldown() {
    let now = Instant::now();
    let debounce = MtimeDebounce::new(Duration::from_millis(500), None, now);

    assert!(debounce.last_mtime.is_none());
    assert!(debounce.pending_since.is_none());
    assert!(debounce.cooldown_until.is_none());
    assert_eq!(debounce.debounce, Duration::from_millis(500));
}

#[test]
fn test_new_with_cooldown() {
    let now = Instant::now();
    let debounce = MtimeDebounce::new(
        Duration::from_millis(500),
        Some(Duration::from_millis(300)),
        now,
    );

    assert_eq!(debounce.cooldown_until, Some(now + Duration::from_millis(300)));
}


#[test]
fn missing_mtime_reports_nothing_and_keeps_the_pending_change() {
    let now = Instant::now();
    let mut debounce = MtimeDebounce::new(Duration::from_millis(100), None, now);
    let mtime = base_time();

    assert!(!debounce.check(Some(mtime), now));
    // The file vanished after the change: no report, even past the interval.
    assert!(!debounce.check(None, now + Duration::from_millis(200)));
    // It came back unchanged: the pending change is reported once.
    assert!(debounce.check(Some(mtime), now + Duration::from_millis(300)));
    assert!(!debounce.check(Some(mtime), now + Duration::from_millis(400)));
}
