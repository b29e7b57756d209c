//! The decisions of the audio engine's control loop.
//!
//! The control thread owns the output device, the connection workers and the
//! playback state. Everything it decides is here, as a state machine: each
//! command or event gives the next state and the list of effects (device
//! operations, worker control and status messages) that the loop carries out
//! in order. Where a decision depends on the outcome of a device operation
//! (attaching a decoded source, switching or reopening the device), the loop
//! performs the operation and reports its outcome as the next input.

use vstd::prelude::*;
use crate::audio::output::{normalize_output_device_name, normalized_device_name, opt_str_view};
use crate::text::{decimal, starts_with, str_chars, string_from_chars, u64_decimal};

verus! {

/// The prefix of every status text of an output device failure.
pub const HARDWARE_OUTPUT_ERROR_PREFIX: &'static str = "Hardware output error: ";

/// A classified engine failure.
#[derive(Debug, Clone, PartialEq, Eq)]
pub enum EngineError {
    /// DNS, TCP, TLS or connect-timeout failure.
    Connect(String),
    /// A non-success HTTP status.
    Http(u16),
    /// Probe, codec or corrupt-data failure.
    Decode(String),
    /// Output device open, sink or driver failure.
    Output(String),
    /// A stale worker; never shown to the user.
    Abandoned,
}

/// Why a stream worker ended.
#[derive(Debug, Clone, Copy, PartialEq, Eq, Structural)]
pub enum EndReason {
    Network,
    Eof,
    Decode,
    Abandoned,
}

/// The state of the engine between two inputs.
#[derive(Debug, Clone, PartialEq, Eq)]
pub enum EngineState {
    Idle,
    Connecting { generation: u64, url: String },
    Buffering { generation: u64, url: String, percent: u8 },
    Playing { generation: u64, url: String },
    Paused { generation: u64, url: String },
    Recovering { generation: u64, url: String, retries: u8 },
    Failed { url: Option<String>, error: EngineError },
}

/// What the engine reports to the interface.
#[derive(Debug, Clone, PartialEq, Eq)]
pub enum AudioStatus {
    Connecting,
    Buffering { percent: u8 },
    Playing,
    Paused,
    Stopped,
    TrackChanged { url: String, title: String },
    Error(String),
    OutputDeviceChanged { active: Option<String> },
    OutputDeviceChangeFailed { requested: Option<String>, active: Option<String>, error: String },
}

/// A command from the interface (volume changes are applied by the loop
/// itself and never change the engine's state).
#[derive(Debug, Clone, PartialEq, Eq)]
pub enum EngineCommand {
    Play(String),
    Pause,
    Resume,
    Stop,
    SetOutputDevice(Option<String>),
    SetStreamMetadata(bool),
}

/// A message from a connection worker or the output device. `Connected`
/// carries the outcome of attaching the worker's decoded source to the
/// output, which the loop attempts only for an event `accepts` admits.
#[derive(Debug, PartialEq, Eq)]
pub enum EngineEvent {
    Buffering { generation: u64, percent: u8 },
    Connected { generation: u64, attached: Result<(), EngineError> },
    TrackChanged { generation: u64, title: String },
    StreamEnded { generation: u64, reason: EndReason },
    OutputLost,
    Failed { generation: u64, error: EngineError },
}

/// An operation the loop carries out for the engine.
#[derive(Debug, Clone, PartialEq, Eq)]
pub enum EngineEffect {
    StopOutput,
    PauseOutput,
    ResumeOutput,
    BeginFadeIn,
    /// Mark every running worker stale.
    AbandonWorkers,
    /// Start a connection worker for `url` under `generation`.
    Spawn { generation: u64, url: String, metadata_enabled: bool },
    Emit(AudioStatus),
    /// Open the requested device; report with `device_switched`.
    SwitchDevice(Option<String>),
    /// Wait `wait_ms` milliseconds (none when 0), reopen the output device
    /// and report with `reopen_finished`.
    ReopenOutput { wait_ms: u64 },
}

// ---------------------------------------------------------------------------
// Views
// ---------------------------------------------------------------------------

pub enum ErrorView {
    Connect(Seq<char>),
    Http(u16),
    Decode(Seq<char>),
    Output(Seq<char>),
    Abandoned,
}

pub enum StateView {
    Idle,
    Connecting(u64, Seq<char>),
    Buffering(u64, Seq<char>, u8),
    Playing(u64, Seq<char>),
    Paused(u64, Seq<char>),
    Recovering(u64, Seq<char>, u8),
    Failed(Option<Seq<char>>, ErrorView),
}

pub enum StatusView {
    Connecting,
    Buffering(u8),
    Playing,
    Paused,
    Stopped,
    TrackChanged(Seq<char>, Seq<char>),
    Error(Seq<char>),
    OutputDeviceChanged(Option<Seq<char>>),
    OutputDeviceChangeFailed(Option<Seq<char>>, Option<Seq<char>>, Seq<char>),
}

pub enum EffectView {
    StopOutput,
    PauseOutput,
    ResumeOutput,
    BeginFadeIn,
    AbandonWorkers,
    Spawn(u64, Seq<char>, bool),
    Emit(StatusView),
    SwitchDevice(Option<Seq<char>>),
    ReopenOutput(u64),
}

pub open spec fn opt_view(o: Option<String>) -> Option<Seq<char>> {
    match o {
        Some(s) => Some(s@),
        None => None,
    }
}

impl View for EngineError {
    type V = ErrorView;

    open spec fn view(&self) -> ErrorView {
        match self {
            EngineError::Connect(m) => ErrorView::Connect(m@),
            EngineError::Http(c) => ErrorView::Http(*c),
            EngineError::Decode(m) => ErrorView::Decode(m@),
            EngineError::Output(m) => ErrorView::Output(m@),
            EngineError::Abandoned => ErrorView::Abandoned,
        }
    }
}

impl View for EngineState {
    type V = StateView;

    open spec fn view(&self) -> StateView {
        match self {
            EngineState::Idle => StateView::Idle,
            EngineState::Connecting { generation, url } => StateView::Connecting(*generation, url@),
            EngineState::Buffering { generation, url, percent } => StateView::Buffering(*generation, url@, *percent),
            EngineState::Playing { generation, url } => StateView::Playing(*generation, url@),
            EngineState::Paused { generation, url } => StateView::Paused(*generation, url@),
            EngineState::Recovering { generation, url, retries } => StateView::Recovering(*generation, url@, *retries),
            EngineState::Failed { url, error } => StateView::Failed(opt_view(*url), error@),
        }
    }
}

impl View for AudioStatus {
    type V = StatusView;

    open spec fn view(&self) -> StatusView {
        match self {
            AudioStatus::Connecting => StatusView::Connecting,
            AudioStatus::Buffering { percent } => StatusView::Buffering(*percent),
            AudioStatus::Playing => StatusView::Playing,
            AudioStatus::Paused => StatusView::Paused,
            AudioStatus::Stopped => StatusView::Stopped,
            AudioStatus::TrackChanged { url, title } => StatusView::TrackChanged(url@, title@),
            AudioStatus::Error(m) => StatusView::Error(m@),
            AudioStatus::OutputDeviceChanged { active } => StatusView::OutputDeviceChanged(opt_view(*active)),
            AudioStatus::OutputDeviceChangeFailed { requested, active, error } => StatusView::OutputDeviceChangeFailed(
                opt_view(*requested),
                opt_view(*active),
                error@,
            ),
        }
    }
}

impl View for EngineEffect {
    type V = EffectView;

    open spec fn view(&self) -> EffectView {
        match self {
            EngineEffect::StopOutput => EffectView::StopOutput,
            EngineEffect::PauseOutput => EffectView::PauseOutput,
            EngineEffect::ResumeOutput => EffectView::ResumeOutput,
            EngineEffect::BeginFadeIn => EffectView::BeginFadeIn,
            EngineEffect::AbandonWorkers => EffectView::AbandonWorkers,
            EngineEffect::Spawn { generation, url, metadata_enabled } => EffectView::Spawn(*generation, url@, *metadata_enabled),
            EngineEffect::Emit(s) => EffectView::Emit(s@),
            EngineEffect::SwitchDevice(r) => EffectView::SwitchDevice(opt_view(*r)),
            EngineEffect::ReopenOutput { wait_ms } => EffectView::ReopenOutput(*wait_ms),
        }
    }
}

pub open spec fn effects_view(v: Seq<EngineEffect>) -> Seq<EffectView> {
    v.map_values(|e: EngineEffect| e@)
}

// ---------------------------------------------------------------------------
// Errors
// ---------------------------------------------------------------------------

/// The status text of an error; its prefix tells the interface the kind.
pub open spec fn status_text(e: ErrorView) -> Seq<char> {
    match e {
        ErrorView::Connect(m) => "Connection failed: "@ + m,
        ErrorView::Http(c) => "HTTP "@ + decimal(c as nat),
        ErrorView::Decode(m) => "Decode error: "@ + m,
        ErrorView::Output(m) => "Hardware output error: "@ + m,
        ErrorView::Abandoned => "Abandoned"@,
    }
}

fn concat_str(prefix: &str, rest: &[char]) -> (r: String)
    ensures
        r@ == prefix@ + rest@,
{
    let mut out = str_chars(prefix);
    let ghost start = out@;
    let mut i: usize = 0;
    while i < rest.len()
        invariant
            i <= rest.len(),
            out@ == start + rest@.take(i as int),
        decreases rest.len() - i,
    {
        out.push(rest[i]);
        assert(rest@.take(i + 1) =~= rest@.take(i as int).push(rest@[i as int]));
        i += 1;
    }
    assert(rest@.take(rest.len() as int) =~= rest@);
    string_from_chars(out.as_slice())
}

impl EngineError {
    /// The status text shown for the error: `Connection failed: ...`,
    /// `HTTP <code>`, `Decode error: ...`, `Hardware output error: ...` or
    /// `Abandoned`.
    pub fn to_status_string(&self) -> (r: String)
        ensures
            r@ == status_text(self@),
    {
        match self {
            EngineError::Connect(m) => concat_str("Connection failed: ", str_chars(m.as_str()).as_slice()),
            EngineError::Http(c) => concat_str("HTTP ", u64_decimal(*c as u64).as_slice()),
            EngineError::Decode(m) => concat_str("Decode error: ", str_chars(m.as_str()).as_slice()),
            EngineError::Output(m) => concat_str(HARDWARE_OUTPUT_ERROR_PREFIX, str_chars(m.as_str()).as_slice()),
            EngineError::Abandoned => crate::text::string_from_str("Abandoned"),
        }
    }

    /// Only output failures may be cured by reopening the device.
    pub fn is_recoverable_output(&self) -> (b: bool)
        ensures
            b == (self@ is Output),
    {
        match self {
            EngineError::Output(_) => true,
            _ => false,
        }
    }
}

/// The status text of an output failure.
pub fn hardware_output_error(message: &str) -> (r: String)
    ensures
        r@ == "Hardware output error: "@ + message@,
{
    concat_str(HARDWARE_OUTPUT_ERROR_PREFIX, str_chars(message).as_slice())
}

/// The status text reports an output failure.
pub fn is_hardware_output_error(error: &str) -> (b: bool)
    ensures
        b == starts_with(error@, "Hardware output error: "@),
{
    let e = str_chars(error);
    let p = str_chars(HARDWARE_OUTPUT_ERROR_PREFIX);
    crate::text::starts_with_chars(e.as_slice(), p.as_slice())
}

// ---------------------------------------------------------------------------
// The control state
// ---------------------------------------------------------------------------

/// A failure whose device recovery is under way: the failure, the station
/// to reconnect and whether it was paused.
#[derive(Debug)]
pub struct PendingRecovery {
    pub error: EngineError,
    pub url: Option<String>,
    pub paused: bool,
}

/// The state the control loop keeps besides the output device and workers.
#[derive(Debug)]
pub struct EngineCore {
    pub state: EngineState,
    /// The next successful attach pauses instead of playing (a paused
    /// station that moved to another device).
    pub pause_after_connect: bool,
    /// The last generation handed to a worker.
    pub current_generation: u64,
    /// The generation whose events are accepted; 0 when none is.
    pub active_generation: u64,
    pub metadata_enabled: bool,
    pub preferred_device: Option<String>,
    pub max_recovery_attempts: u8,
    pub recovery_delay_ms: u64,
    pub pending_recovery: Option<PendingRecovery>,
}

pub struct CoreView {
    pub state: StateView,
    pub pause_after_connect: bool,
    pub current: u64,
    pub active: u64,
    pub metadata_enabled: bool,
    pub preferred: Option<Seq<char>>,
    pub max_attempts: u8,
    pub delay_ms: u64,
    pub pending: Option<(ErrorView, Option<Seq<char>>, bool)>,
}

impl View for EngineCore {
    type V = CoreView;

    open spec fn view(&self) -> CoreView {
        CoreView {
            state: self.state@,
            pause_after_connect: self.pause_after_connect,
            current: self.current_generation,
            active: self.active_generation,
            metadata_enabled: self.metadata_enabled,
            preferred: opt_view(self.preferred_device),
            max_attempts: self.max_recovery_attempts,
            delay_ms: self.recovery_delay_ms,
            pending: match self.pending_recovery {
                Some(p) => Some((p.error@, opt_view(p.url), p.paused)),
                None => None,
            },
        }
    }
}

pub enum CommandView {
    Play(Seq<char>),
    Pause,
    Resume,
    Stop,
    SetOutputDevice(Option<Seq<char>>),
    SetStreamMetadata(bool),
}

impl View for EngineCommand {
    type V = CommandView;

    open spec fn view(&self) -> CommandView {
        match self {
            EngineCommand::Play(u) => CommandView::Play(u@),
            EngineCommand::Pause => CommandView::Pause,
            EngineCommand::Resume => CommandView::Resume,
            EngineCommand::Stop => CommandView::Stop,
            EngineCommand::SetOutputDevice(r) => CommandView::SetOutputDevice(opt_view(*r)),
            EngineCommand::SetStreamMetadata(b) => CommandView::SetStreamMetadata(*b),
        }
    }
}

pub enum EventView {
    Buffering(u64, u8),
    Connected(u64, Result<(), ErrorView>),
    TrackChanged(u64, Seq<char>),
    StreamEnded(u64, EndReason),
    OutputLost,
    Failed(u64, ErrorView),
}

impl View for EngineEvent {
    type V = EventView;

    open spec fn view(&self) -> EventView {
        match self {
            EngineEvent::Buffering { generation, percent } => EventView::Buffering(*generation, *percent),
            EngineEvent::Connected { generation, attached } => EventView::Connected(
                *generation,
                match attached {
                    Ok(()) => Ok(()),
                    Err(e) => Err(e@),
                },
            ),
            EngineEvent::TrackChanged { generation, title } => EventView::TrackChanged(*generation, title@),
            EngineEvent::StreamEnded { generation, reason } => EventView::StreamEnded(*generation, *reason),
            EngineEvent::OutputLost => EventView::OutputLost,
            EngineEvent::Failed { generation, error } => EventView::Failed(*generation, error@),
        }
    }
}

/// The generation an event belongs to; device losses belong to none.
pub open spec fn event_generation(e: EventView) -> Option<u64> {
    match e {
        EventView::Buffering(g, _) => Some(g),
        EventView::Connected(g, _) => Some(g),
        EventView::TrackChanged(g, _) => Some(g),
        EventView::StreamEnded(g, _) => Some(g),
        EventView::OutputLost => None,
        EventView::Failed(g, _) => Some(g),
    }
}

impl EngineEvent {
    /// The generation the event belongs to; device losses belong to none.
    pub fn generation(&self) -> (g: Option<u64>)
        ensures
            g == event_generation(self@),
    {
        match self {
            EngineEvent::Buffering { generation, .. } => Some(*generation),
            EngineEvent::Connected { generation, .. } => Some(*generation),
            EngineEvent::TrackChanged { generation, .. } => Some(*generation),
            EngineEvent::StreamEnded { generation, .. } => Some(*generation),
            EngineEvent::OutputLost => None,
            EngineEvent::Failed { generation, .. } => Some(*generation),
        }
    }
}

/// The generation after `g`; never 0, which marks "no generation".
pub open spec fn next_generation(g: u64) -> u64 {
    if g == u64::MAX { 1 } else { (g + 1) as u64 }
}

/// The station of the state, if it has one.
pub open spec fn state_url(s: StateView) -> Option<Seq<char>> {
    match s {
        StateView::Idle => None,
        StateView::Connecting(_, u) => Some(u),
        StateView::Buffering(_, u, _) => Some(u),
        StateView::Playing(_, u) => Some(u),
        StateView::Paused(_, u) => Some(u),
        StateView::Recovering(_, u, _) => Some(u),
        StateView::Failed(u, _) => u,
    }
}

pub open spec fn url_or_empty(u: Option<Seq<char>>) -> Seq<char> {
    match u {
        Some(v) => v,
        None => Seq::empty(),
    }
}

/// What to resume after the device changes: the station and whether it was
/// paused; nothing when idle or failed.
pub open spec fn resume_target(s: StateView) -> Option<(Seq<char>, bool)> {
    match s {
        StateView::Connecting(_, u) => Some((u, false)),
        StateView::Buffering(_, u, _) => Some((u, false)),
        StateView::Playing(_, u) => Some((u, false)),
        StateView::Recovering(_, u, _) => Some((u, false)),
        StateView::Paused(_, u) => Some((u, true)),
        StateView::Idle => None,
        StateView::Failed(_, _) => None,
    }
}

/// Start connecting to `url` under a fresh generation.
pub open spec fn start_connection(c: CoreView, url: Seq<char>, paused: bool) -> (CoreView, Seq<EffectView>) {
    let g = next_generation(c.current);
    (
        CoreView {
            state: StateView::Connecting(g, url),
            pause_after_connect: paused,
            current: g,
            active: g,
            ..c
        },
        seq![EffectView::Emit(StatusView::Connecting), EffectView::Spawn(g, url, c.metadata_enabled)],
    )
}

/// The failure reported once recovery is over: an output failure after all
/// recovery attempts becomes `device recovery exhausted after N attempts`.
pub open spec fn final_error(error: ErrorView, retries: u8, max: u8) -> ErrorView {
    if (error is Output) && retries >= max {
        ErrorView::Output("device recovery exhausted after "@ + decimal(max as nat) + " attempts"@)
    } else {
        error
    }
}

/// Enter the failed state and report it.
pub open spec fn finish_failure(c: CoreView, error: ErrorView, url: Option<Seq<char>>, retries: u8) -> (CoreView, Seq<EffectView>) {
    let e = final_error(error, retries, c.max_attempts);
    (
        CoreView { state: StateView::Failed(url, e), pause_after_connect: false, pending: None, ..c },
        seq![EffectView::Emit(StatusView::Error(status_text(e)))],
    )
}

/// An output failure with attempts left reopens the device (waiting first
/// after a failed attempt); any other failure is final.
pub open spec fn fail_or_recover(c: CoreView, error: ErrorView, url: Option<Seq<char>>, paused: bool, retries: u8) -> (CoreView, Seq<EffectView>) {
    if (error is Output) && retries < c.max_attempts {
        (
            CoreView { pending: Some((error, url, paused)), ..c },
            seq![EffectView::ReopenOutput(if retries > 0 { c.delay_ms } else { 0 })],
        )
    } else {
        finish_failure(c, error, url, retries)
    }
}

/// The result of a command.
pub open spec fn command_step(c: CoreView, cmd: CommandView) -> (CoreView, Seq<EffectView>) {
    match cmd {
        CommandView::Play(url) => {
            let (n, e) = start_connection(c, url, false);
            (n, seq![EffectView::StopOutput] + e)
        },
        CommandView::Pause => match c.state {
            StateView::Playing(g, u) => (
                CoreView { state: StateView::Paused(g, u), ..c },
                seq![EffectView::PauseOutput, EffectView::Emit(StatusView::Paused)],
            ),
            _ => (c, Seq::empty()),
        },
        CommandView::Resume => match c.state {
            StateView::Paused(g, u) => (
                CoreView { state: StateView::Playing(g, u), ..c },
                seq![EffectView::ResumeOutput, EffectView::BeginFadeIn, EffectView::Emit(StatusView::Playing)],
            ),
            _ => (c, Seq::empty()),
        },
        CommandView::Stop => (
            CoreView { state: StateView::Idle, pause_after_connect: false, active: 0, ..c },
            seq![EffectView::AbandonWorkers, EffectView::StopOutput, EffectView::Emit(StatusView::Stopped)],
        ),
        CommandView::SetOutputDevice(r) => (c, seq![EffectView::SwitchDevice(r)]),
        CommandView::SetStreamMetadata(b) => (CoreView { metadata_enabled: b, ..c }, Seq::empty()),
    }
}

/// The result of an event, given the output device's count of recovery
/// attempts. Events of a generation other than the active one are ignored.
pub open spec fn event_step(c: CoreView, ev: EventView, retries: u8) -> (CoreView, Seq<EffectView>) {
    if event_generation(ev) is Some && event_generation(ev)->0 != c.active {
        (c, Seq::empty())
    } else {
        match ev {
            EventView::Buffering(g, p) => match c.state {
                StateView::Connecting(_, u) => (
                    CoreView { state: StateView::Buffering(g, u, p), ..c },
                    seq![EffectView::Emit(StatusView::Buffering(p))],
                ),
                StateView::Buffering(_, u, _) => (
                    CoreView { state: StateView::Buffering(g, u, p), ..c },
                    seq![EffectView::Emit(StatusView::Buffering(p))],
                ),
                _ => (c, Seq::empty()),
            },
            EventView::Connected(g, attached) => {
                let u = url_or_empty(state_url(c.state));
                match attached {
                    Ok(()) => if c.pause_after_connect {
                        (
                            CoreView { state: StateView::Paused(g, u), pause_after_connect: false, ..c },
                            seq![EffectView::PauseOutput, EffectView::Emit(StatusView::Paused)],
                        )
                    } else {
                        (
                            CoreView { state: StateView::Playing(g, u), ..c },
                            seq![EffectView::BeginFadeIn, EffectView::Emit(StatusView::Playing)],
                        )
                    },
                    Err(e) => fail_or_recover(c, e, Some(u), c.pause_after_connect, retries),
                }
            },
            EventView::TrackChanged(_, title) => (
                c,
                seq![EffectView::Emit(StatusView::TrackChanged(url_or_empty(state_url(c.state)), title))],
            ),
            EventView::StreamEnded(_, reason) => match reason {
                EndReason::Abandoned => (c, Seq::empty()),
                EndReason::Eof => (
                    CoreView { state: StateView::Idle, pause_after_connect: false, ..c },
                    seq![EffectView::StopOutput, EffectView::Emit(StatusView::Stopped)],
                ),
                _ => {
                    let e = ErrorView::Connect("Connection lost"@);
                    (
                        CoreView { state: StateView::Failed(state_url(c.state), e), pause_after_connect: false, ..c },
                        seq![EffectView::Emit(StatusView::Error(status_text(e)))],
                    )
                },
            },
            EventView::OutputLost => match resume_target(c.state) {
                Some((u, paused)) => fail_or_recover(c, ErrorView::Output("output device lost"@), Some(u), paused, retries),
                None => fail_or_recover(c, ErrorView::Output("output device lost"@), None, false, retries),
            },
            EventView::Failed(_, e) => fail_or_recover(c, e, state_url(c.state), c.pause_after_connect, retries),
        }
    }
}

/// The result of a device reopen under way (`retries` counts the attempts
/// the device has made since its last success).
pub open spec fn reopen_step(c: CoreView, result: Result<(), ErrorView>, retries: u8) -> (CoreView, Seq<EffectView>) {
    match c.pending {
        None => (c, Seq::empty()),
        Some((error, url, paused)) => {
            let c0 = CoreView { pending: None, ..c };
            match result {
                Ok(()) => match url {
                    Some(u) => start_connection(c0, u, paused),
                    None => finish_failure(c0, error, None, retries),
                },
                Err(e) => if retries < c.max_attempts {
                    fail_or_recover(c0, e, url, paused, retries)
                } else {
                    finish_failure(c0, error, url, retries)
                },
            }
        },
    }
}

/// The result of a device switch: the new device is reported and, when it
/// differs from the previous one, the current station reconnects (paused if
/// it was paused); a failed switch is reported and changes nothing.
pub open spec fn switch_step(c: CoreView, requested: Option<Seq<char>>, result: Result<Option<Seq<char>>, ErrorView>) -> (CoreView, Seq<EffectView>) {
    match result {
        Ok(active) => {
            let c1 = CoreView { preferred: active, ..c };
            let report = seq![EffectView::Emit(StatusView::OutputDeviceChanged(active))];
            if active == c.preferred {
                (c1, report)
            } else {
                match resume_target(c.state) {
                    Some((u, paused)) => {
                        let (n, e) = start_connection(c1, u, paused);
                        (n, report + e)
                    },
                    None => (c1, report),
                }
            }
        },
        Err(e) => (
            c,
            seq![EffectView::Emit(StatusView::OutputDeviceChangeFailed(normalized_device_name(requested), c.preferred, status_text(e)))],
        ),
    }
}

/// The result of the output running dry: a playing stream has ended.
pub open spec fn drained_step(c: CoreView) -> (CoreView, Seq<EffectView>) {
    match c.state {
        StateView::Playing(_, _) => (
            CoreView { state: StateView::Idle, pause_after_connect: false, ..c },
            seq![EffectView::StopOutput, EffectView::Emit(StatusView::Stopped)],
        ),
        _ => (c, Seq::empty()),
    }
}

/// What a device change resumes.
#[derive(Debug, Clone, PartialEq, Eq)]
pub enum DeviceSwitchResume {
    NoStation,
    Playing(String),
    Paused(String),
}

/// What a device change resumes: the station of a connecting, buffering,
/// playing or recovering engine resumes playing, a paused one resumes paused.
pub fn device_switch_resume(state: &EngineState) -> (r: DeviceSwitchResume)
    ensures
        match resume_target(state@) {
            Some((u, false)) => r matches DeviceSwitchResume::Playing(v) && v@ == u,
            Some((u, true)) => r matches DeviceSwitchResume::Paused(v) && v@ == u,
            None => r is NoStation,
        },
{
    match state {
        EngineState::Connecting { url, .. } => DeviceSwitchResume::Playing(url.clone()),
        EngineState::Buffering { url, .. } => DeviceSwitchResume::Playing(url.clone()),
        EngineState::Playing { url, .. } => DeviceSwitchResume::Playing(url.clone()),
        EngineState::Recovering { url, .. } => DeviceSwitchResume::Playing(url.clone()),
        EngineState::Paused { url, .. } => DeviceSwitchResume::Paused(url.clone()),
        EngineState::Idle => DeviceSwitchResume::NoStation,
        EngineState::Failed { .. } => DeviceSwitchResume::NoStation,
    }
}

fn resume_pair(state: &EngineState) -> (r: Option<(String, bool)>)
    ensures
        match resume_target(state@) {
            Some((u, p)) => r matches Some((v, q)) && v@ == u && q == p,
            None => r is None,
        },
{
    match device_switch_resume(state) {
        DeviceSwitchResume::Playing(u) => Some((u, false)),
        DeviceSwitchResume::Paused(u) => Some((u, true)),
        DeviceSwitchResume::NoStation => None,
    }
}

fn effects2(a: EngineEffect, b: EngineEffect) -> (r: Vec<EngineEffect>)
    ensures
        effects_view(r@) == seq![a@, b@],
{
    let mut v = Vec::new();
    v.push(a);
    v.push(b);
    assert(effects_view(v@) =~= seq![a@, b@]);
    v
}

fn effects1(a: EngineEffect) -> (r: Vec<EngineEffect>)
    ensures
        effects_view(r@) == seq![a@],
{
    let mut v = Vec::new();
    v.push(a);
    assert(effects_view(v@) =~= seq![a@]);
    v
}

fn no_effects() -> (r: Vec<EngineEffect>)
    ensures
        effects_view(r@) == Seq::<EffectView>::empty(),
{
    let v: Vec<EngineEffect> = Vec::new();
    assert(effects_view(v@) =~= Seq::<EffectView>::empty());
    v
}

fn prepend(a: EngineEffect, rest: Vec<EngineEffect>) -> (r: Vec<EngineEffect>)
    ensures
        effects_view(r@) == seq![a@] + effects_view(rest@),
{
    let mut v = Vec::new();
    v.push(a);
    let mut rest = rest;
    let ghost rv = rest@;
    v.append(&mut rest);
    assert(effects_view(v@) =~= seq![a@] + effects_view(rv));
    v
}

fn clone_opt(o: &Option<String>) -> (r: Option<String>)
    ensures
        opt_view(r) == opt_view(*o),
{
    match o {
        Some(s) => Some(s.clone()),
        None => None,
    }
}


fn opt_eq(a: &Option<String>, b: &Option<String>) -> (r: bool)
    ensures
        r == (opt_view(*a) == opt_view(*b)),
{
    match (a, b) {
        (Some(x), Some(y)) => *x == *y,
        (None, None) => true,
        _ => false,
    }
}

impl EngineCore {
    /// An idle engine with stream metadata on, the default device, and the
    /// given device recovery limits.
    pub fn new(max_recovery_attempts: u8, recovery_delay_ms: u64) -> (c: Self)
        ensures
            c@.state is Idle,
            !c@.pause_after_connect,
            c@.current == 0,
            c@.active == 0,
            c@.metadata_enabled,
            c@.preferred is None,
            c@.max_attempts == max_recovery_attempts,
            c@.delay_ms == recovery_delay_ms,
            c@.pending is None,
    {
        EngineCore {
            state: EngineState::Idle,
            pause_after_connect: false,
            current_generation: 0,
            active_generation: 0,
            metadata_enabled: true,
            preferred_device: None,
            max_recovery_attempts,
            recovery_delay_ms,
            pending_recovery: None,
        }
    }

    /// Events of `generation` are still wanted.
    pub fn accepts(&self, generation: u64) -> (b: bool)
        ensures
            b == (generation == self.active_generation),
    {
        generation == self.active_generation
    }

    /// The station of the current state, if any.
    fn current_url(&self) -> (r: Option<String>)
        ensures
            opt_view(r) == state_url(self.state@),
    {
        match &self.state {
            EngineState::Idle => None,
            EngineState::Connecting { url, .. } => Some(url.clone()),
            EngineState::Buffering { url, .. } => Some(url.clone()),
            EngineState::Playing { url, .. } => Some(url.clone()),
            EngineState::Paused { url, .. } => Some(url.clone()),
            EngineState::Recovering { url, .. } => Some(url.clone()),
            EngineState::Failed { url, .. } => clone_opt(url),
        }
    }

    fn start_connection(&mut self, url: String, paused: bool) -> (r: Vec<EngineEffect>)
        ensures
            final(self)@ == start_connection(old(self)@, url@, paused).0,
            effects_view(r@) == start_connection(old(self)@, url@, paused).1,
    {
        let g = if self.current_generation == u64::MAX { 1 } else { self.current_generation + 1 };
        self.current_generation = g;
        self.active_generation = g;
        self.pause_after_connect = paused;
        self.state = EngineState::Connecting { generation: g, url: url.clone() };
        effects2(
            EngineEffect::Emit(AudioStatus::Connecting),
            EngineEffect::Spawn { generation: g, url, metadata_enabled: self.metadata_enabled },
        )
    }

    /// Carries out a command.
    pub fn handle_command(&mut self, command: EngineCommand) -> (r: Vec<EngineEffect>)
        ensures
            final(self)@ == command_step(old(self)@, command@).0,
            effects_view(r@) == command_step(old(self)@, command@).1,
    {
        match command {
            EngineCommand::Play(url) => {
                let rest = self.start_connection(url, false);
                prepend(EngineEffect::StopOutput, rest)
            },
            EngineCommand::Pause => {
                let next = match &self.state {
                    EngineState::Playing { generation, url } => Some(EngineState::Paused { generation: *generation, url: url.clone() }),
                    _ => None,
                };
                match next {
                    Some(n) => {
                        self.state = n;
                        effects2(EngineEffect::PauseOutput, EngineEffect::Emit(AudioStatus::Paused))
                    },
                    None => no_effects(),
                }
            },
            EngineCommand::Resume => {
                let next = match &self.state {
                    EngineState::Paused { generation, url } => Some(EngineState::Playing { generation: *generation, url: url.clone() }),
                    _ => None,
                };
                match next {
                    Some(n) => {
                        self.state = n;
                        prepend(
                            EngineEffect::ResumeOutput,
                            effects2(EngineEffect::BeginFadeIn, EngineEffect::Emit(AudioStatus::Playing)),
                        )
                    },
                    None => no_effects(),
                }
            },
            EngineCommand::Stop => {
                self.pause_after_connect = false;
                self.active_generation = 0;
                self.state = EngineState::Idle;
                prepend(
                    EngineEffect::AbandonWorkers,
                    effects2(EngineEffect::StopOutput, EngineEffect::Emit(AudioStatus::Stopped)),
                )
            },
            EngineCommand::SetOutputDevice(requested) => effects1(EngineEffect::SwitchDevice(requested)),
            EngineCommand::SetStreamMetadata(enabled) => {
                self.metadata_enabled = enabled;
                no_effects()
            },
        }
    }
}

impl EngineCore {
    fn finish_failure(&mut self, error: EngineError, url: Option<String>, retries: u8) -> (r: Vec<EngineEffect>)
        ensures
            final(self)@ == finish_failure(old(self)@, error@, opt_view(url), retries).0,
            effects_view(r@) == finish_failure(old(self)@, error@, opt_view(url), retries).1,
    {
        let e = if error.is_recoverable_output() && retries >= self.max_recovery_attempts {
            let mut text = str_chars("device recovery exhausted after ");
            let digits = u64_decimal(self.max_recovery_attempts as u64);
            let mut d = digits.clone();
            text.append(&mut d);
            let mut tail = str_chars(" attempts");
            text.append(&mut tail);
            EngineError::Output(string_from_chars(text.as_slice()))
        } else {
            error
        };
        let status = e.to_status_string();
        self.pause_after_connect = false;
        self.pending_recovery = None;
        self.state = EngineState::Failed { url, error: e };
        effects1(EngineEffect::Emit(AudioStatus::Error(status)))
    }

    fn fail_or_recover(&mut self, error: EngineError, url: Option<String>, paused: bool, retries: u8) -> (r: Vec<EngineEffect>)
        ensures
            final(self)@ == fail_or_recover(old(self)@, error@, opt_view(url), paused, retries).0,
            effects_view(r@) == fail_or_recover(old(self)@, error@, opt_view(url), paused, retries).1,
    {
        if error.is_recoverable_output() && retries < self.max_recovery_attempts {
            let wait_ms = if retries > 0 { self.recovery_delay_ms } else { 0 };
            self.pending_recovery = Some(PendingRecovery { error, url, paused });
            effects1(EngineEffect::ReopenOutput { wait_ms })
        } else {
            self.finish_failure(error, url, retries)
        }
    }

    /// Handles a message from a worker or the output device; `retries` is the
    /// device's count of recovery attempts since its last success.
    pub fn handle_event(&mut self, event: EngineEvent, retries: u8) -> (r: Vec<EngineEffect>)
        ensures
            final(self)@ == event_step(old(self)@, event@, retries).0,
            effects_view(r@) == event_step(old(self)@, event@, retries).1,
    {
        let generation = match &event {
            EngineEvent::Buffering { generation, .. } => Some(*generation),
            EngineEvent::Connected { generation, .. } => Some(*generation),
            EngineEvent::TrackChanged { generation, .. } => Some(*generation),
            EngineEvent::StreamEnded { generation, .. } => Some(*generation),
            EngineEvent::OutputLost => None,
            EngineEvent::Failed { generation, .. } => Some(*generation),
        };
        if let Some(g) = generation {
            if g != self.active_generation {
                return no_effects();
            }
        }
        match event {
            EngineEvent::Buffering { generation, percent } => {
                let next = match &self.state {
                    EngineState::Connecting { url, .. } => Some(url.clone()),
                    EngineState::Buffering { url, .. } => Some(url.clone()),
                    _ => None,
                };
                match next {
                    Some(url) => {
                        self.state = EngineState::Buffering { generation, url, percent };
                        effects1(EngineEffect::Emit(AudioStatus::Buffering { percent }))
                    },
                    None => no_effects(),
                }
            },
            EngineEvent::Connected { generation, attached } => {
                let url = match self.current_url() {
                    Some(u) => u,
                    None => String::new(),
                };
                match attached {
                    Ok(()) => {
                        if self.pause_after_connect {
                            self.pause_after_connect = false;
                            self.state = EngineState::Paused { generation, url };
                            effects2(EngineEffect::PauseOutput, EngineEffect::Emit(AudioStatus::Paused))
                        } else {
                            self.state = EngineState::Playing { generation, url };
                            effects2(EngineEffect::BeginFadeIn, EngineEffect::Emit(AudioStatus::Playing))
                        }
                    },
                    Err(error) => {
                        let paused = self.pause_after_connect;
                        self.fail_or_recover(error, Some(url), paused, retries)
                    },
                }
            },
            EngineEvent::TrackChanged { title, .. } => {
                let url = match self.current_url() {
                    Some(u) => u,
                    None => String::new(),
                };
                effects1(EngineEffect::Emit(AudioStatus::TrackChanged { url, title }))
            },
            EngineEvent::StreamEnded { reason, .. } => match reason {
                EndReason::Abandoned => no_effects(),
                EndReason::Eof => {
                    self.pause_after_connect = false;
                    self.state = EngineState::Idle;
                    effects2(EngineEffect::StopOutput, EngineEffect::Emit(AudioStatus::Stopped))
                },
                _ => {
                    self.pause_after_connect = false;
                    let error = EngineError::Connect(crate::text::string_from_str("Connection lost"));
                    let status = error.to_status_string();
                    let url = self.current_url();
                    self.state = EngineState::Failed { url, error };
                    effects1(EngineEffect::Emit(AudioStatus::Error(status)))
                },
            },
            EngineEvent::OutputLost => {
                let target = resume_pair(&self.state);
                let error = EngineError::Output(crate::text::string_from_str("output device lost"));
                match target {
                    Some((url, paused)) => self.fail_or_recover(error, Some(url), paused, retries),
                    None => self.fail_or_recover(error, None, false, retries),
                }
            },
            EngineEvent::Failed { error, .. } => {
                let url = self.current_url();
                let paused = self.pause_after_connect;
                self.fail_or_recover(error, url, paused, retries)
            },
        }
    }

    /// Handles the outcome of a device reopen that an effect asked for;
    /// `retries` is the device's count of recovery attempts after it.
    pub fn reopen_finished(&mut self, result: Result<(), EngineError>, retries: u8) -> (r: Vec<EngineEffect>)
        ensures
            final(self)@ == reopen_step(
                old(self)@,
                match result {
                    Ok(()) => Ok(()),
                    Err(e) => Err(e@),
                },
                retries,
            ).0,
            effects_view(r@) == reopen_step(
                old(self)@,
                match result {
                    Ok(()) => Ok(()),
                    Err(e) => Err(e@),
                },
                retries,
            ).1,
    {
        let pending = match self.pending_recovery.take() {
            Some(p) => p,
            None => return no_effects(),
        };
        match result {
            Ok(()) => match pending.url {
                Some(url) => self.start_connection(url, pending.paused),
                None => self.finish_failure(pending.error, None, retries),
            },
            Err(e) => {
                if retries < self.max_recovery_attempts {
                    self.fail_or_recover(e, pending.url, pending.paused, retries)
                } else {
                    self.finish_failure(pending.error, pending.url, retries)
                }
            },
        }
    }

    /// Handles the outcome of a device switch that an effect asked for.
    pub fn device_switched(&mut self, requested: Option<String>, result: Result<Option<String>, EngineError>) -> (r: Vec<EngineEffect>)
        ensures
            final(self)@ == switch_step(
                old(self)@,
                opt_view(requested),
                match result {
                    Ok(a) => Ok(opt_view(a)),
                    Err(e) => Err(e@),
                },
            ).0,
            effects_view(r@) == switch_step(
                old(self)@,
                opt_view(requested),
                match result {
                    Ok(a) => Ok(opt_view(a)),
                    Err(e) => Err(e@),
                },
            ).1,
    {
        match result {
            Ok(active) => {
                let same = opt_eq(&active, &self.preferred_device);
                self.preferred_device = clone_opt(&active);
                let report = effects1(EngineEffect::Emit(AudioStatus::OutputDeviceChanged { active }));
                if same {
                    return report;
                }
                let target = resume_pair(&self.state);
                match target {
                    Some((url, paused)) => {
                        let mut out = report;
                        let ghost rv = out@;
                        let mut more = self.start_connection(url, paused);
                        let ghost mv = more@;
                        out.append(&mut more);
                        assert(effects_view(out@) =~= effects_view(rv) + effects_view(mv));
                        out
                    },
                    None => report,
                }
            },
            Err(error) => {
                let requested_view = match &requested {
                    Some(r) => normalize_output_device_name(Some(r.as_str())),
                    None => normalize_output_device_name(None),
                };
                let status = error.to_status_string();
                effects1(EngineEffect::Emit(AudioStatus::OutputDeviceChangeFailed {
                    requested: requested_view,
                    active: clone_opt(&self.preferred_device),
                    error: status,
                }))
            },
        }
    }

    /// Handles the output running dry.
    pub fn output_drained(&mut self) -> (r: Vec<EngineEffect>)
        ensures
            final(self)@ == drained_step(old(self)@).0,
            effects_view(r@) == drained_step(old(self)@).1,
    {
        if let EngineState::Playing { .. } = &self.state {
            self.pause_after_connect = false;
            self.state = EngineState::Idle;
            effects2(EngineEffect::StopOutput, EngineEffect::Emit(AudioStatus::Stopped))
        } else {
            no_effects()
        }
    }
}

// ---------------------------------------------------------------------------
// Laws
// ---------------------------------------------------------------------------

/// The accepted generation is none or the last one handed out.
pub open spec fn generation_invariant(c: CoreView) -> bool {
    c.active == 0 || c.active == c.current
}

/// An event of a generation other than the accepted one changes nothing and
/// causes nothing.
pub proof fn lemma_stale_event_ignored(c: CoreView, ev: EventView, retries: u8)
    requires
        event_generation(ev) is Some,
        event_generation(ev)->0 != c.active,
    ensures
        event_step(c, ev, retries).0 == c,
        event_step(c, ev, retries).1 == Seq::<EffectView>::empty(),
{
}

/// Stop works from every state: the engine is idle, forgets a pending pause,
/// abandons its workers, stops the output and reports `Stopped` exactly once;
/// afterwards no event of any worker is accepted.
pub proof fn lemma_stop_is_total(c: CoreView, ev: EventView, retries: u8)
    requires
        event_generation(ev) matches Some(g) && g != 0,
    ensures
        command_step(c, CommandView::Stop).0.state is Idle,
        !command_step(c, CommandView::Stop).0.pause_after_connect,
        command_step(c, CommandView::Stop).1 == seq![
            EffectView::AbandonWorkers,
            EffectView::StopOutput,
            EffectView::Emit(StatusView::Stopped),
        ],
        event_step(command_step(c, CommandView::Stop).0, ev, retries).0 == command_step(c, CommandView::Stop).0,
        event_step(command_step(c, CommandView::Stop).0, ev, retries).1 == Seq::<EffectView>::empty(),
{
}

/// Every connection gets a generation that is not 0 and differs from the one
/// accepted before, so events of an earlier worker are never taken for the
/// new one's.
pub proof fn lemma_play_uses_fresh_generation(c: CoreView, url: Seq<char>)
    requires
        generation_invariant(c),
    ensures
        command_step(c, CommandView::Play(url)).0.active != 0,
        command_step(c, CommandView::Play(url)).0.active != c.active,
        command_step(c, CommandView::Play(url)).0.state == StateView::Connecting(
            command_step(c, CommandView::Play(url)).0.active,
            url,
        ),
        !command_step(c, CommandView::Play(url)).0.pause_after_connect,
{
}

/// Every input keeps the accepted generation none or the last one handed
/// out.
pub proof fn lemma_generation_invariant_kept(
    c: CoreView,
    cmd: CommandView,
    ev: EventView,
    retries: u8,
    reopened: Result<(), ErrorView>,
    requested: Option<Seq<char>>,
    switched: Result<Option<Seq<char>>, ErrorView>,
)
    requires
        generation_invariant(c),
    ensures
        generation_invariant(command_step(c, cmd).0),
        generation_invariant(event_step(c, ev, retries).0),
        generation_invariant(reopen_step(c, reopened, retries).0),
        generation_invariant(switch_step(c, requested, switched).0),
        generation_invariant(drained_step(c).0),
{
}

/// Pausing a playing station and resuming it gives back the same playback.
pub proof fn lemma_pause_resume_round_trip(c: CoreView)
    requires
        c.state is Playing,
    ensures
        command_step(command_step(c, CommandView::Pause).0, CommandView::Resume).0 == c,
{
}

/// A successful attach always consumes the request to pause after connecting.
pub proof fn lemma_attach_consumes_pause_request(c: CoreView, g: u64, retries: u8)
    requires
        g == c.active,
    ensures
        !event_step(c, EventView::Connected(g, Ok(())), retries).0.pause_after_connect,
        event_step(c, EventView::Connected(g, Ok(())), retries).0.state == (if c.pause_after_connect {
            StateView::Paused(g, url_or_empty(state_url(c.state)))
        } else {
            StateView::Playing(g, url_or_empty(state_url(c.state)))
        }),
{
}

/// A failure that is not an output failure is final at once: the engine
/// reports it and needs no device operation.
pub proof fn lemma_non_output_failure_is_final(c: CoreView, g: u64, e: ErrorView, retries: u8)
    requires
        g == c.active,
        !(e is Output),
    ensures
        event_step(c, EventView::Failed(g, e), retries).0.state == StateView::Failed(state_url(c.state), e),
        event_step(c, EventView::Failed(g, e), retries).1 == seq![EffectView::Emit(StatusView::Error(status_text(e)))],
{
}

/// Switching the output device is transactional: a switch that failed
/// keeps the playback state, the preferred device and everything else, and
/// only reports the failure.
pub proof fn lemma_failed_switch_keeps_playback(c: CoreView, requested: Option<Seq<char>>, e: ErrorView)
    ensures
        switch_step(c, requested, Err(e)).0 == c,
        switch_step(c, requested, Err(e)).1.len() == 1,
        switch_step(c, requested, Err(e)).1[0] is Emit,
{
}


/// How a stream of the current generation ends: at its end (`Eof`) the
/// output is stopped and the engine goes idle, reporting `Stopped`; a lost
/// connection or a decode failure leaves the engine failed on the same
/// station with "Connection lost", reported as an error, without stopping
/// the output; an abandoned worker changes nothing. Either way a pending
/// pause request is dropped, and nothing else of the engine changes.
pub proof fn lemma_stream_end(c: CoreView, reason: EndReason, retries: u8)
    ensures
        ({
            let (after, effects) = event_step(c, EventView::StreamEnded(c.active, reason), retries);
            match reason {
                EndReason::Eof => {
                    &&& after == CoreView { state: StateView::Idle, pause_after_connect: false, ..c }
                    &&& effects == seq![EffectView::StopOutput, EffectView::Emit(StatusView::Stopped)]
                },
                EndReason::Abandoned => after == c && effects.len() == 0,
                _ => {
                    &&& after == CoreView {
                        state: StateView::Failed(state_url(c.state), ErrorView::Connect("Connection lost"@)),
                        pause_after_connect: false,
                        ..c
                    }
                    &&& effects == seq![EffectView::Emit(StatusView::Error("Connection failed: Connection lost"@))]
                },
            }
        }),
{
    reveal_strlit("Connection failed: ");
    reveal_strlit("Connection lost");
    reveal_strlit("Connection failed: Connection lost");
    assert("Connection failed: "@ + "Connection lost"@ =~= "Connection failed: Connection lost"@);
}


/// Buffering progress of the current worker moves a connecting or
/// buffering engine to that percentage of the same station and reports it;
/// in any other state it is ignored.
pub proof fn lemma_buffering_progress(c: CoreView, p: u8, retries: u8)
    ensures
        ({
            let (after, effects) = event_step(c, EventView::Buffering(c.active, p), retries);
            match c.state {
                StateView::Connecting(_, u) => after == CoreView { state: StateView::Buffering(c.active, u, p), ..c }
                    && effects == seq![EffectView::Emit(StatusView::Buffering(p))],
                StateView::Buffering(_, u, _) => after == CoreView { state: StateView::Buffering(c.active, u, p), ..c }
                    && effects == seq![EffectView::Emit(StatusView::Buffering(p))],
                _ => after == c && effects.len() == 0,
            }
        }),
{
}

/// A title change of the current stream changes nothing in the engine and
/// is reported once, with the station's URL.
pub proof fn lemma_track_change_reported(c: CoreView, title: Seq<char>, retries: u8)
    ensures
        event_step(c, EventView::TrackChanged(c.active, title), retries) == (
            c,
            seq![EffectView::Emit(StatusView::TrackChanged(url_or_empty(state_url(c.state)), title))],
        ),
{
}

/// A stream attached to the output starts playing with a fade-in, reported
/// as `Playing`; when a pause was asked for while connecting, the output is
/// paused instead and `Paused` is reported.
pub proof fn lemma_attach_effects(c: CoreView, retries: u8)
    ensures
        event_step(c, EventView::Connected(c.active, Ok(())), retries).1 == if c.pause_after_connect {
            seq![EffectView::PauseOutput, EffectView::Emit(StatusView::Paused)]
        } else {
            seq![EffectView::BeginFadeIn, EffectView::Emit(StatusView::Playing)]
        },
{
}

} // verus!
