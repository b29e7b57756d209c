use pulsedeck::audio::engine::AudioStatus;
use pulsedeck::audio::legacy_loop::{AudioLoopState, ConnectionResult, LoopCommand, LoopEffect, PendingAction};

#[test]
fn first_play_opens_the_output_then_connects() {
    let mut s = AudioLoopState::new(2);
    let fx = s.handle_command(LoopCommand::Play("http://a".to_string()));
    assert_eq!(fx, vec![LoopEffect::OpenOutput]);
    let fx = s.output_opened(Ok(()));
    assert_eq!(
        fx,
        vec![
            LoopEffect::Emit(AudioStatus::Connecting),
            LoopEffect::Spawn { conn_id: 1, url: "http://a".to_string(), metadata_enabled: true },
        ]
    );
    assert!(s.connecting);
    let fx = s.connection_finished(ConnectionResult::Ready);
    assert_eq!(fx, vec![LoopEffect::MuteSink, LoopEffect::Emit(AudioStatus::Playing)]);
    assert!(s.has_sink && s.fading_in);
    assert!(!s.volume_applies_now());
    s.finish_fade_in();
    assert!(s.volume_applies_now());
}

#[test]
fn output_failure_is_reported() {
    let mut s = AudioLoopState::new(2);
    s.handle_command(LoopCommand::Play("http://a".to_string()));
    let fx = s.output_opened(Err("no device".to_string()));
    assert_eq!(fx, vec![LoopEffect::Emit(AudioStatus::Error("Soundcard error: no device".to_string()))]);
    assert_eq!(s.output_opened(Ok(())), vec![]);
}

#[test]
fn play_and_stop_wait_for_the_fade_out() {
    let mut s = AudioLoopState::new(2);
    s.output_open = true;
    s.handle_command(LoopCommand::Play("http://a".to_string()));
    s.connection_finished(ConnectionResult::Ready);
    assert_eq!(s.handle_command(LoopCommand::Play("http://b".to_string())), vec![]);
    assert_eq!(s.pending_action, Some(PendingAction::Play("http://b".to_string())));
    let fx = s.run_pending();
    assert_eq!(
        fx,
        vec![
            LoopEffect::StopSink,
            LoopEffect::Emit(AudioStatus::Connecting),
            LoopEffect::Spawn { conn_id: 2, url: "http://b".to_string(), metadata_enabled: true },
        ]
    );
    s.connection_finished(ConnectionResult::Ready);
    assert_eq!(s.handle_command(LoopCommand::Stop), vec![]);
    assert_eq!(
        s.run_pending(),
        vec![LoopEffect::AbandonConnection, LoopEffect::StopSink, LoopEffect::Emit(AudioStatus::Stopped)]
    );
    assert!(!s.has_sink);
    assert_eq!(s.active_conn_id, 0);
}

#[test]
fn hardware_failures_retry_up_to_the_limit() {
    let mut s = AudioLoopState::new(1);
    s.output_open = true;
    s.handle_command(LoopCommand::Play("http://a".to_string()));
    let fx = s.connection_finished(ConnectionResult::Failed("Hardware output error: stale handle".to_string()));
    assert_eq!(
        fx,
        vec![LoopEffect::ResetOutput, LoopEffect::Emit(AudioStatus::Connecting), LoopEffect::OpenOutput]
    );
    s.output_opened(Ok(()));
    let fx = s.connection_finished(ConnectionResult::Failed("Hardware output error: stale handle".to_string()));
    assert_eq!(
        fx,
        vec![LoopEffect::Emit(AudioStatus::Error("Hardware output error: stale handle".to_string()))]
    );
    assert_eq!(s.connection_finished(ConnectionResult::Failed("Abandoned".to_string())), vec![]);
    assert_eq!(
        s.connection_finished(ConnectionResult::Panicked),
        vec![LoopEffect::Emit(AudioStatus::Error("Connection thread panicked".to_string()))]
    );
}

#[test]
fn device_change_waits_for_the_next_connection_while_playing() {
    let mut s = AudioLoopState::new(2);
    s.output_open = true;
    s.handle_command(LoopCommand::Play("http://a".to_string()));
    s.connection_finished(ConnectionResult::Ready);
    assert_eq!(s.handle_command(LoopCommand::SetOutputDevice(Some(" USB ".to_string()))), vec![]);
    assert_eq!(s.preferred_device, Some("USB".to_string()));
    assert!(s.reopen_output_on_next_connection);
    s.handle_command(LoopCommand::Play("http://b".to_string()));
    let fx = s.run_pending();
    assert_eq!(fx, vec![LoopEffect::StopSink, LoopEffect::ResetOutput, LoopEffect::OpenOutput]);
    let mut idle = AudioLoopState::new(2);
    assert_eq!(idle.handle_command(LoopCommand::SetOutputDevice(None)), vec![LoopEffect::ResetOutput]);
    assert_eq!(
        idle.handle_command(LoopCommand::Stop),
        vec![LoopEffect::AbandonConnection, LoopEffect::Emit(AudioStatus::Stopped)]
    );
}

#[test]
fn a_drained_sink_reports_stopped_once() {
    let mut s = AudioLoopState::new(2);
    s.has_sink = true;
    assert_eq!(s.sink_drained(), vec![LoopEffect::Emit(AudioStatus::Stopped)]);
    assert!(!s.has_sink);
    assert!(s.sink_drained().is_empty());
}
