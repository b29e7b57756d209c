use pulsedeck::audio::engine::EngineError;
use pulsedeck::audio::prebuffer::{
    connect_failure, icy_metaint, is_abandoned_error, is_timeout_error, percent,
    prebuffer_failure_error, Prebuffer, PrebufferFailure, PrebufferStep, ReadOutcome,
};

#[test]
fn fill_reads_chunks_until_the_minimum() {
    let mut p = Prebuffer::new(6000, 10000);
    assert_eq!(p.next_step(true, false), PrebufferStep::Read(4096));
    assert_eq!(p.after_read(ReadOutcome::Data(vec![1; 4096]), true, false), Ok(Some(68)));
    assert_eq!(p.next_step(true, false), PrebufferStep::Read(4096));
    assert_eq!(p.after_read(ReadOutcome::Data(vec![2; 2000]), true, false), Ok(Some(99)));
    assert_eq!(p.next_step(true, false), PrebufferStep::Done);
    assert_eq!(p.finish().unwrap().len(), 6096);
}

#[test]
fn fill_respects_the_maximum() {
    let mut p = Prebuffer::new(10, 5);
    assert_eq!(p.next_step(true, false), PrebufferStep::Read(5));
    assert_eq!(p.after_read(ReadOutcome::Data(vec![0; 5]), true, false), Ok(Some(50)));
    assert_eq!(p.next_step(true, false), PrebufferStep::Done);
}

#[test]
fn fill_gives_up_when_abandoned_or_late() {
    let mut p = Prebuffer::new(10, 100);
    assert_eq!(p.next_step(false, false), PrebufferStep::Fail(PrebufferFailure::Abandoned));
    assert_eq!(p.next_step(true, true), PrebufferStep::Fail(PrebufferFailure::Timeout));
    p.next_step(true, false);
    assert_eq!(p.after_read(ReadOutcome::Data(vec![0; 3]), true, true), Err(PrebufferFailure::Timeout));
    p.next_step(true, false);
    assert_eq!(p.after_read(ReadOutcome::Data(vec![0; 3]), false, false), Err(PrebufferFailure::Abandoned));
    assert_eq!(p.after_read(ReadOutcome::TimedOut, true, false), Err(PrebufferFailure::Timeout));
    assert_eq!(
        p.after_read(ReadOutcome::Failed("reset".to_string()), true, false),
        Err(PrebufferFailure::Read("reset".to_string()))
    );
}

#[test]
fn an_empty_stream_is_a_read_failure() {
    let mut p = Prebuffer::new(10, 100);
    p.next_step(true, false);
    assert_eq!(p.after_read(ReadOutcome::Data(vec![]), true, false), Ok(None));
    assert_eq!(
        p.finish(),
        Err(PrebufferFailure::Read("stream ended before sending audio data".to_string()))
    );
}

#[test]
fn percent_is_capped_at_99() {
    assert_eq!(percent(0, 0), 99);
    assert_eq!(percent(10, 100), 10);
    assert_eq!(percent(200, 100), 99);
    assert_eq!(percent(usize::MAX, 1), 99);
}

#[test]
fn read_errors_are_classified() {
    assert!(is_abandoned_error("Abandoned"));
    assert!(!is_abandoned_error("abandoned now"));
    assert!(is_timeout_error(true, "anything"));
    assert!(is_timeout_error(false, "operation Timed Out"));
    assert!(is_timeout_error(false, "read TIMEOUT"));
    assert!(!is_timeout_error(false, "connection reset"));
}

#[test]
fn icy_metaint_is_honoured_only_in_range() {
    assert_eq!(icy_metaint(true, Some("16000")), Some(16000));
    assert_eq!(icy_metaint(false, Some("16000")), None);
    assert_eq!(icy_metaint(true, Some("0")), None);
    assert_eq!(icy_metaint(true, Some("16777217")), None);
    assert_eq!(icy_metaint(true, Some("abc")), None);
    assert_eq!(icy_metaint(true, None), None);
}

#[test]
fn worker_failures_have_stable_messages() {
    assert_eq!(
        connect_failure(true, "ignored"),
        EngineError::Connect("connection or response headers timed out after 8 seconds".to_string())
    );
    assert_eq!(
        connect_failure(false, "dns error"),
        EngineError::Connect("could not connect: dns error".to_string())
    );
    assert_eq!(prebuffer_failure_error(&PrebufferFailure::Abandoned, 8), None);
    assert_eq!(
        prebuffer_failure_error(&PrebufferFailure::Timeout, 8),
        Some(EngineError::Connect("stream read timed out while buffering after 8 seconds".to_string()))
    );
    assert_eq!(
        prebuffer_failure_error(&PrebufferFailure::Read("eof".to_string()), 8),
        Some(EngineError::Connect("stream read failed while buffering: eof".to_string()))
    );
}

/// Drives a fill the way a connection worker does: `read` answers each read
/// of at most the given size; `active` and `timed_out` are the worker's view
/// at each step. Returns the prebuffer (or the failure) and the progress
/// reported.
fn fill_prebuffer(
    read: &mut dyn FnMut(usize) -> ReadOutcome,
    min_bytes: usize,
    max_bytes: usize,
    active: bool,
    timed_out: bool,
) -> (Result<Vec<u8>, PrebufferFailure>, Vec<u8>) {
    let mut p = Prebuffer::new(min_bytes, max_bytes);
    let mut progress = Vec::new();
    loop {
        match p.next_step(active, timed_out) {
            PrebufferStep::Done => break,
            PrebufferStep::Fail(f) => return (Err(f), progress),
            PrebufferStep::Read(n) => match p.after_read(read(n), active, timed_out) {
                Ok(Some(pct)) => progress.push(pct),
                Ok(None) => break,
                Err(f) => return (Err(f), progress),
            },
        }
    }
    (p.finish(), progress)
}

fn cursor(data: Vec<u8>) -> impl FnMut(usize) -> ReadOutcome {
    let mut pos = 0;
    move |n| {
        let end = (pos + n).min(data.len());
        let chunk = data[pos..end].to_vec();
        pos = end;
        ReadOutcome::Data(chunk)
    }
}

#[test]
fn prebuffer_timeout_error_is_classified_explicitly() {
    let mut timeout_reader = |_n: usize| ReadOutcome::TimedOut;
    let (result, _) = fill_prebuffer(&mut timeout_reader, 1024, 4096, true, false);
    assert_eq!(result, Err(PrebufferFailure::Timeout));
}

#[test]
fn elapsed_prebuffer_deadline_fires_before_read() {
    let mut panic_reader = |_n: usize| -> ReadOutcome { panic!("reader must not be called after the deadline") };
    let (result, _) = fill_prebuffer(&mut panic_reader, 1024, 4096, true, true);
    assert_eq!(result, Err(PrebufferFailure::Timeout));
}

#[test]
fn cancellation_is_checked_before_read() {
    let mut panic_reader = |_n: usize| -> ReadOutcome { panic!("reader must not be called after cancellation") };
    let (result, _) = fill_prebuffer(&mut panic_reader, 1024, 4096, false, false);
    assert_eq!(result, Err(PrebufferFailure::Abandoned));
}

#[test]
fn prebuffer_emits_progress_and_respects_minimum() {
    let mut reader = cursor(vec![1_u8; 2048]);
    let (result, progress) = fill_prebuffer(&mut reader, 1024, 4096, true, false);
    let prebuffer = result.unwrap();
    assert!(prebuffer.len() >= 1024);
    assert!(prebuffer.len() <= 4096);
    assert!(!progress.is_empty());
}

#[test]
fn empty_stream_returns_read_failure() {
    let mut reader = cursor(Vec::new());
    let (result, _) = fill_prebuffer(&mut reader, 1024, 4096, true, false);
    assert!(matches!(result, Err(PrebufferFailure::Read(_))));
}

#[test]
fn timeout_detection_handles_kind_and_message() {
    assert!(is_timeout_error(true, "slow"));
    assert!(is_timeout_error(false, "operation timeout"));
    assert!(!is_timeout_error(false, "connection reset"));
}

#[test]
fn prebuffer_never_exceeds_maximum() {
    for (len, max_bytes) in [(1usize, 1usize), (8192, 4096), (5000, 4095), (100, 50), (4097, 4096)] {
        let mut reader = cursor((0..len).map(|i| i as u8).collect());
        let (result, _) = fill_prebuffer(&mut reader, max_bytes, max_bytes, true, false);
        if let Ok(prebuffer) = result {
            assert!(prebuffer.len() <= max_bytes);
        }
    }
}
