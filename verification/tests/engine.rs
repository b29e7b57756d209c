use pulsedeck::audio::engine::{
    device_switch_resume, hardware_output_error, is_hardware_output_error, AudioStatus,
    DeviceSwitchResume, EndReason, EngineCommand, EngineCore, EngineEffect, EngineError,
    EngineEvent, EngineState,
};

fn emitted(effects: &[EngineEffect]) -> Vec<AudioStatus> {
    effects
        .iter()
        .filter_map(|e| match e {
            EngineEffect::Emit(s) => Some(s.clone()),
            _ => None,
        })
        .collect()
}

#[test]
fn device_switch_resume_preserves_each_active_state() {
    assert_eq!(device_switch_resume(&EngineState::Idle), DeviceSwitchResume::NoStation);
    assert_eq!(
        device_switch_resume(&EngineState::Playing { generation: 1, url: "play".to_string() }),
        DeviceSwitchResume::Playing("play".to_string())
    );
    assert_eq!(
        device_switch_resume(&EngineState::Paused { generation: 1, url: "pause".to_string() }),
        DeviceSwitchResume::Paused("pause".to_string())
    );
    assert_eq!(
        device_switch_resume(&EngineState::Connecting { generation: 1, url: "connect".to_string() }),
        DeviceSwitchResume::Playing("connect".to_string())
    );
    assert_eq!(
        device_switch_resume(&EngineState::Buffering {
            generation: 1,
            url: "buffer".to_string(),
            percent: 50,
        }),
        DeviceSwitchResume::Playing("buffer".to_string())
    );
}

#[test]
fn hardware_output_error_uses_recovery_prefix() {
    let error = hardware_output_error("Sink error: stale handle");

    assert!(is_hardware_output_error(&error));
    assert!(error.contains("stale handle"));
}

#[test]
fn non_hardware_error_does_not_trigger_recovery() {
    assert!(!is_hardware_output_error("Connection failed: timeout"));
    assert!(!is_hardware_output_error("Decode error: unsupported"));
}

#[test]
fn engine_error_to_status_string_stable_prefixes() {
    assert!(EngineError::Connect("timeout".into()).to_status_string().starts_with("Connection failed:"));
    assert!(EngineError::Http(404).to_status_string().starts_with("HTTP "));
    assert!(EngineError::Decode("unsupported".into()).to_status_string().starts_with("Decode error:"));
    assert!(EngineError::Output("stale handle".into())
        .to_status_string()
        .starts_with("Hardware output error:"));
    assert_eq!(EngineError::Http(404).to_status_string(), "HTTP 404");
    assert_eq!(EngineError::Abandoned.to_status_string(), "Abandoned");
}

#[test]
fn engine_error_is_recoverable_output_only_for_output_variant() {
    assert!(EngineError::Output("x".into()).is_recoverable_output());
    assert!(!EngineError::Connect("x".into()).is_recoverable_output());
    assert!(!EngineError::Http(500).is_recoverable_output());
    assert!(!EngineError::Decode("x".into()).is_recoverable_output());
    assert!(!EngineError::Abandoned.is_recoverable_output());
}

#[test]
fn play_sets_connecting_and_clears_pause_restore() {
    let mut engine = EngineCore::new(3, 2000);
    engine.pause_after_connect = true;

    let effects = engine.handle_command(EngineCommand::Play("http://station".to_string()));

    assert!(!engine.pause_after_connect);
    assert!(matches!(engine.state, EngineState::Connecting { .. }));
    assert!(emitted(&effects).iter().any(|status| matches!(status, AudioStatus::Connecting)));
    assert_eq!(
        effects,
        vec![
            EngineEffect::StopOutput,
            EngineEffect::Emit(AudioStatus::Connecting),
            EngineEffect::Spawn { generation: 1, url: "http://station".to_string(), metadata_enabled: true },
        ]
    );
}

#[test]
fn stop_is_total_and_emits_one_stopped() {
    let mut engine = EngineCore::new(3, 2000);
    engine.state = EngineState::Paused { generation: 1, url: "http://station".to_string() };
    engine.pause_after_connect = true;

    let effects = engine.handle_command(EngineCommand::Stop);

    assert!(matches!(engine.state, EngineState::Idle));
    assert!(!engine.pause_after_connect);
    assert_eq!(
        emitted(&effects).iter().filter(|status| matches!(status, AudioStatus::Stopped)).count(),
        1
    );
}

#[test]
fn stale_event_is_ignored() {
    let mut engine = EngineCore::new(3, 2000);
    engine.handle_command(EngineCommand::Play("http://old".to_string()));
    engine.handle_command(EngineCommand::Play("http://station".to_string()));
    let current = engine.active_generation;
    engine.state = EngineState::Playing { generation: current, url: "http://station".to_string() };

    let effects = engine.handle_event(EngineEvent::Buffering { generation: 1, percent: 80 }, 0);

    assert!(matches!(engine.state, EngineState::Playing { .. }));
    assert!(effects.is_empty());
}

#[test]
fn paused_restore_flag_is_consumed_after_successful_attach_or_failure() {
    let mut engine = EngineCore::new(3, 2000);
    engine.pause_after_connect = true;
    engine.handle_command(EngineCommand::Stop);
    assert!(!engine.pause_after_connect);
}

#[test]
fn metadata_setting_is_kept_in_worker_options() {
    let mut engine = EngineCore::new(3, 2000);
    engine.handle_command(EngineCommand::SetStreamMetadata(false));
    assert!(!engine.metadata_enabled);
    let effects = engine.handle_command(EngineCommand::Play("http://x".to_string()));
    assert!(effects.contains(&EngineEffect::Spawn {
        generation: 1,
        url: "http://x".to_string(),
        metadata_enabled: false,
    }));
}

#[test]
fn buffering_then_connected_plays_with_fade_in() {
    let mut engine = EngineCore::new(3, 2000);
    engine.handle_command(EngineCommand::Play("http://s".to_string()));
    let g = engine.active_generation;
    let effects = engine.handle_event(EngineEvent::Buffering { generation: g, percent: 40 }, 0);
    assert_eq!(effects, vec![EngineEffect::Emit(AudioStatus::Buffering { percent: 40 })]);
    assert!(engine.accepts(g));
    let effects = engine.handle_event(EngineEvent::Connected { generation: g, attached: Ok(()) }, 0);
    assert_eq!(effects, vec![EngineEffect::BeginFadeIn, EngineEffect::Emit(AudioStatus::Playing)]);
    assert_eq!(engine.state, EngineState::Playing { generation: g, url: "http://s".to_string() });
    let effects = engine.handle_event(EngineEvent::TrackChanged { generation: g, title: "Song".to_string() }, 0);
    assert_eq!(
        effects,
        vec![EngineEffect::Emit(AudioStatus::TrackChanged { url: "http://s".to_string(), title: "Song".to_string() })]
    );
}

#[test]
fn output_failure_recovers_by_reopening_then_reconnects() {
    let mut engine = EngineCore::new(3, 2000);
    engine.handle_command(EngineCommand::Play("http://s".to_string()));
    let g = engine.active_generation;
    engine.handle_event(EngineEvent::Connected { generation: g, attached: Ok(()) }, 0);

    let effects = engine.handle_event(EngineEvent::OutputLost, 0);
    assert_eq!(effects, vec![EngineEffect::ReopenOutput { wait_ms: 0 }]);

    // First reopen fails; the next attempt waits the recovery delay.
    let effects = engine.reopen_finished(Err(EngineError::Output("busy".to_string())), 1);
    assert_eq!(effects, vec![EngineEffect::ReopenOutput { wait_ms: 2000 }]);

    let effects = engine.reopen_finished(Ok(()), 0);
    assert_eq!(
        effects,
        vec![
            EngineEffect::Emit(AudioStatus::Connecting),
            EngineEffect::Spawn { generation: g + 1, url: "http://s".to_string(), metadata_enabled: true },
        ]
    );
    assert!(engine.pending_recovery.is_none());
}

#[test]
fn output_recovery_gives_up_after_the_attempt_limit() {
    let mut engine = EngineCore::new(2, 10);
    engine.handle_command(EngineCommand::Play("http://s".to_string()));
    let g = engine.active_generation;
    engine.handle_event(EngineEvent::Failed { generation: g, error: EngineError::Output("gone".to_string()) }, 0);
    engine.reopen_finished(Err(EngineError::Output("still gone".to_string())), 1);
    let effects = engine.reopen_finished(Err(EngineError::Output("still gone".to_string())), 2);
    assert_eq!(
        effects,
        vec![EngineEffect::Emit(AudioStatus::Error(
            "Hardware output error: device recovery exhausted after 2 attempts".to_string()
        ))]
    );
    assert!(matches!(engine.state, EngineState::Failed { .. }));
}

#[test]
fn network_end_fails_with_connection_lost() {
    let mut engine = EngineCore::new(3, 2000);
    engine.handle_command(EngineCommand::Play("http://s".to_string()));
    let g = engine.active_generation;
    let effects = engine.handle_event(EngineEvent::StreamEnded { generation: g, reason: EndReason::Network }, 0);
    assert_eq!(
        effects,
        vec![EngineEffect::Emit(AudioStatus::Error("Connection failed: Connection lost".to_string()))]
    );
    let effects = engine.handle_event(EngineEvent::Failed { generation: g, error: EngineError::Http(503) }, 0);
    assert_eq!(effects, vec![EngineEffect::Emit(AudioStatus::Error("HTTP 503".to_string()))]);
}

#[test]
fn device_switch_reconnects_a_paused_station_paused() {
    let mut engine = EngineCore::new(3, 2000);
    engine.handle_command(EngineCommand::Play("http://s".to_string()));
    let g = engine.active_generation;
    engine.handle_event(EngineEvent::Connected { generation: g, attached: Ok(()) }, 0);
    engine.handle_command(EngineCommand::Pause);

    let effects = engine.handle_command(EngineCommand::SetOutputDevice(Some("USB".to_string())));
    assert_eq!(effects, vec![EngineEffect::SwitchDevice(Some("USB".to_string()))]);
    let effects = engine.device_switched(Some("USB".to_string()), Ok(Some("USB".to_string())));
    assert_eq!(effects[0], EngineEffect::Emit(AudioStatus::OutputDeviceChanged { active: Some("USB".to_string()) }));
    assert!(engine.pause_after_connect);
    let g2 = engine.active_generation;
    let effects = engine.handle_event(EngineEvent::Connected { generation: g2, attached: Ok(()) }, 0);
    assert_eq!(effects, vec![EngineEffect::PauseOutput, EngineEffect::Emit(AudioStatus::Paused)]);
    assert!(!engine.pause_after_connect);
}

#[test]
fn failed_device_switch_reports_and_keeps_state() {
    let mut engine = EngineCore::new(3, 2000);
    engine.state = EngineState::Playing { generation: 1, url: "http://station".to_string() };
    let effects = engine.device_switched(
        Some(" default ".to_string()),
        Err(EngineError::Output("no such device".to_string())),
    );
    assert_eq!(
        effects,
        vec![EngineEffect::Emit(AudioStatus::OutputDeviceChangeFailed {
            requested: None,
            active: None,
            error: "Hardware output error: no such device".to_string(),
        })]
    );
    assert!(engine.preferred_device.is_none());
    assert!(matches!(engine.state, EngineState::Playing { .. }));
}

#[test]
fn output_error_uses_hardware_output_error_prefix() {
    let s = EngineError::Output("no device available".into()).to_status_string();
    assert!(s.starts_with(pulsedeck::audio::engine::HARDWARE_OUTPUT_ERROR_PREFIX));
}

#[test]
fn engine_event_generation_returns_none_for_output_lost() {
    assert!(EngineEvent::OutputLost.generation().is_none());
}

#[test]
fn engine_event_generation_returns_some_for_worker_events() {
    let generation = EngineEvent::Buffering { generation: 7, percent: 50 }.generation();
    assert_eq!(generation, Some(7));
}

#[test]
fn a_drained_output_ends_a_playing_stream_only() {
    let mut engine = EngineCore::new(3, 2000);
    assert!(engine.output_drained().is_empty());
    assert_eq!(engine.state, EngineState::Idle);

    engine.state = EngineState::Playing { generation: 4, url: "http://a".to_string() };
    let effects = engine.output_drained();
    assert_eq!(effects, vec![EngineEffect::StopOutput, EngineEffect::Emit(AudioStatus::Stopped)]);
    assert_eq!(engine.state, EngineState::Idle);
}
