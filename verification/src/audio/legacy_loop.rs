//! The decisions of the first-generation audio loop, which plays one sink at
//! a time and fades it out before a queued play or stop takes effect.
//!
//! Volume ramps are done by the loop itself on floating-point volumes; it
//! tells the state here when a fade-out has finished (`run_pending`). The
//! rest (commands, connection results, device handling) is decided here and
//! carried out by the loop as a list of effects.

use vstd::prelude::*;
use crate::audio::engine::{opt_view, AudioStatus, StatusView};
use crate::audio::output::{normalize_output_device_name, normalized_device_name, opt_str_view};
use crate::text::{starts_with, str_chars};

verus! {

/// A command waiting for the current sink to fade out.
#[derive(Debug, Clone, PartialEq, Eq)]
pub enum PendingAction {
    Play(String),
    Stop,
}

/// A command from the interface (volume changes are applied by the loop).
#[derive(Debug, Clone, PartialEq, Eq)]
pub enum LoopCommand {
    Play(String),
    Pause,
    Resume,
    Stop,
    SetOutputDevice(Option<String>),
    SetStreamMetadata(bool),
}

/// How a connection thread ended.
#[derive(Debug, Clone, PartialEq, Eq)]
pub enum ConnectionResult {
    /// A sink is ready to play.
    Ready,
    /// The connection failed with this status text.
    Failed(String),
    /// The thread panicked.
    Panicked,
}

/// An operation the loop carries out.
#[derive(Debug, Clone, PartialEq, Eq)]
pub enum LoopEffect {
    PauseSink,
    PlaySink,
    /// Stop and drop the current sink.
    StopSink,
    /// Start the new sink silent, to swell to the target volume.
    MuteSink,
    Emit(AudioStatus),
    /// Mark the running connection stale and forget its thread.
    AbandonConnection,
    /// Drop the output stream so the next connection opens it again.
    ResetOutput,
    /// Open the output stream; report with `output_opened`.
    OpenOutput,
    /// Start a connection thread for `url` under `conn_id`.
    Spawn { conn_id: u64, url: String, metadata_enabled: bool },
}

pub enum LoopEffectView {
    PauseSink,
    PlaySink,
    StopSink,
    MuteSink,
    Emit(StatusView),
    AbandonConnection,
    ResetOutput,
    OpenOutput,
    Spawn(u64, Seq<char>, bool),
}

impl View for LoopEffect {
    type V = LoopEffectView;

    open spec fn view(&self) -> LoopEffectView {
        match self {
            LoopEffect::PauseSink => LoopEffectView::PauseSink,
            LoopEffect::PlaySink => LoopEffectView::PlaySink,
            LoopEffect::StopSink => LoopEffectView::StopSink,
            LoopEffect::MuteSink => LoopEffectView::MuteSink,
            LoopEffect::Emit(s) => LoopEffectView::Emit(s@),
            LoopEffect::AbandonConnection => LoopEffectView::AbandonConnection,
            LoopEffect::ResetOutput => LoopEffectView::ResetOutput,
            LoopEffect::OpenOutput => LoopEffectView::OpenOutput,
            LoopEffect::Spawn { conn_id, url, metadata_enabled } => LoopEffectView::Spawn(*conn_id, url@, *metadata_enabled),
        }
    }
}

pub open spec fn loop_effects_view(v: Seq<LoopEffect>) -> Seq<LoopEffectView> {
    v.map_values(|e: LoopEffect| e@)
}

/// What the loop keeps besides its sink, output stream and threads.
pub struct AudioLoopState {
    pub has_sink: bool,
    pub connecting: bool,
    pub pending_action: Option<PendingAction>,
    pub fading_in: bool,
    pub preferred_device: Option<String>,
    pub metadata_enabled: bool,
    pub reopen_output_on_next_connection: bool,
    pub output_open: bool,
    pub current_conn_id: u64,
    pub active_conn_id: u64,
    pub current_url: Option<String>,
    pub hardware_retries: u8,
    pub max_hardware_retries: u8,
    /// The station waiting for the output stream to open.
    pub awaiting_output: Option<String>,
}

pub enum PendingView {
    Play(Seq<char>),
    Stop,
}

pub struct LoopView {
    pub has_sink: bool,
    pub connecting: bool,
    pub pending: Option<PendingView>,
    pub fading_in: bool,
    pub preferred: Option<Seq<char>>,
    pub metadata_enabled: bool,
    pub reopen_next: bool,
    pub output_open: bool,
    pub current_id: u64,
    pub active_id: u64,
    pub url: Option<Seq<char>>,
    pub retries: u8,
    pub max_retries: u8,
    pub awaiting: Option<Seq<char>>,
}

impl View for AudioLoopState {
    type V = LoopView;

    open spec fn view(&self) -> LoopView {
        LoopView {
            has_sink: self.has_sink,
            connecting: self.connecting,
            pending: match self.pending_action {
                Some(PendingAction::Play(u)) => Some(PendingView::Play(u@)),
                Some(PendingAction::Stop) => Some(PendingView::Stop),
                None => None,
            },
            fading_in: self.fading_in,
            preferred: opt_view(self.preferred_device),
            metadata_enabled: self.metadata_enabled,
            reopen_next: self.reopen_output_on_next_connection,
            output_open: self.output_open,
            current_id: self.current_conn_id,
            active_id: self.active_conn_id,
            url: opt_view(self.current_url),
            retries: self.hardware_retries,
            max_retries: self.max_hardware_retries,
            awaiting: opt_view(self.awaiting_output),
        }
    }
}

/// Start the connection thread for `url`: the output is reset first when a
/// device change is waiting, and opened first when it is closed.
pub open spec fn spawn_step(s: LoopView, url: Seq<char>) -> (LoopView, Seq<LoopEffectView>) {
    let reset = if s.reopen_next { seq![LoopEffectView::ResetOutput] } else { Seq::empty() };
    let s1 = if s.reopen_next { LoopView { output_open: false, reopen_next: false, ..s } } else { s };
    if !s1.output_open {
        (LoopView { awaiting: Some(url), ..s1 }, reset + seq![LoopEffectView::OpenOutput])
    } else {
        let id = (s1.current_id + 1) as u64;
        (
            LoopView { current_id: id, active_id: id, connecting: true, ..s1 },
            reset + seq![LoopEffectView::Emit(StatusView::Connecting), LoopEffectView::Spawn(id, url, s1.metadata_enabled)],
        )
    }
}

/// Connect to `url`, counting hardware retries afresh unless this is a retry.
pub open spec fn start_step(s: LoopView, url: Seq<char>, reset_retries: bool) -> (LoopView, Seq<LoopEffectView>) {
    let s1 = LoopView { url: Some(url), retries: if reset_retries { 0 } else { s.retries }, ..s };
    spawn_step(s1, url)
}

/// The effect of a command.
pub open spec fn loop_command_step(s: LoopView, cmd: LoopCommand) -> (LoopView, Seq<LoopEffectView>) {
    match cmd {
        LoopCommand::Play(url) => if s.has_sink {
            (LoopView { pending: Some(PendingView::Play(url@)), ..s }, Seq::empty())
        } else {
            start_step(s, url@, true)
        },
        LoopCommand::Pause => if s.has_sink {
            (
                LoopView { pending: None, fading_in: false, ..s },
                seq![LoopEffectView::PauseSink, LoopEffectView::Emit(StatusView::Paused)],
            )
        } else {
            (s, Seq::empty())
        },
        LoopCommand::Resume => if s.has_sink {
            (
                LoopView { pending: None, fading_in: true, ..s },
                seq![LoopEffectView::PlaySink, LoopEffectView::Emit(StatusView::Playing)],
            )
        } else {
            (s, Seq::empty())
        },
        LoopCommand::Stop => if s.has_sink {
            (LoopView { pending: Some(PendingView::Stop), ..s }, Seq::empty())
        } else {
            (
                LoopView { active_id: 0, connecting: false, ..s },
                seq![LoopEffectView::AbandonConnection, LoopEffectView::Emit(StatusView::Stopped)],
            )
        },
        LoopCommand::SetOutputDevice(name) => {
            let preferred = normalized_device_name(opt_view(name));
            if s.has_sink {
                (LoopView { preferred, reopen_next: true, ..s }, Seq::empty())
            } else {
                (
                    LoopView { preferred, output_open: false, reopen_next: false, ..s },
                    seq![LoopEffectView::ResetOutput],
                )
            }
        },
        LoopCommand::SetStreamMetadata(b) => (LoopView { metadata_enabled: b, ..s }, Seq::empty()),
    }
}

/// The queued command, once the sink has faded out (or when there is none).
pub open spec fn pending_step(s: LoopView) -> (LoopView, Seq<LoopEffectView>) {
    let stop_sink = if s.has_sink { seq![LoopEffectView::StopSink] } else { Seq::empty() };
    match s.pending {
        None => (s, Seq::empty()),
        Some(PendingView::Play(url)) => {
            let (n, e) = start_step(LoopView { pending: None, has_sink: false, ..s }, url, true);
            (n, stop_sink + e)
        },
        Some(PendingView::Stop) => (
            LoopView { pending: None, has_sink: false, active_id: 0, connecting: false, ..s },
            seq![LoopEffectView::AbandonConnection] + stop_sink + seq![LoopEffectView::Emit(StatusView::Stopped)],
        ),
    }
}

/// The effect of the output stream having opened (or not) for the station
/// waiting on it.
pub open spec fn output_step(s: LoopView, opened: Result<(), Seq<char>>) -> (LoopView, Seq<LoopEffectView>) {
    match s.awaiting {
        None => (s, Seq::empty()),
        Some(url) => {
            let s0 = LoopView { awaiting: None, ..s };
            match opened {
                Err(e) => (s0, seq![LoopEffectView::Emit(StatusView::Error("Soundcard error: "@ + e))]),
                Ok(()) => spawn_step(LoopView { output_open: true, ..s0 }, url),
            }
        },
    }
}

/// The effect of the connection thread having ended.
pub open spec fn connection_step(s: LoopView, result: ConnectionResult) -> (LoopView, Seq<LoopEffectView>) {
    let s0 = LoopView { connecting: false, ..s };
    match result {
        ConnectionResult::Ready => (
            LoopView { has_sink: true, fading_in: true, ..s0 },
            seq![LoopEffectView::MuteSink, LoopEffectView::Emit(StatusView::Playing)],
        ),
        ConnectionResult::Panicked => (s0, seq![LoopEffectView::Emit(StatusView::Error("Connection thread panicked"@))]),
        ConnectionResult::Failed(e) => if e@ == "Abandoned"@ {
            (s0, Seq::empty())
        } else if starts_with(e@, "Hardware output error: "@) && s.retries < s.max_retries {
            let s1 = LoopView { retries: (s.retries + 1) as u8, output_open: false, ..s0 };
            let head = seq![LoopEffectView::ResetOutput, LoopEffectView::Emit(StatusView::Connecting)];
            match s.url {
                Some(url) => {
                    let (n, rest) = start_step(s1, url, false);
                    (n, head + rest)
                },
                None => (s1, head + seq![LoopEffectView::Emit(StatusView::Error(e@))]),
            }
        } else {
            (s0, seq![LoopEffectView::Emit(StatusView::Error(e@))])
        },
    }
}

fn fx1(a: LoopEffect) -> (r: Vec<LoopEffect>)
    ensures
        loop_effects_view(r@) == seq![a@],
{
    let mut v = Vec::new();
    v.push(a);
    assert(loop_effects_view(v@) =~= seq![a@]);
    v
}

fn fx2(a: LoopEffect, b: LoopEffect) -> (r: Vec<LoopEffect>)
    ensures
        loop_effects_view(r@) == seq![a@, b@],
{
    let mut v = Vec::new();
    v.push(a);
    v.push(b);
    assert(loop_effects_view(v@) =~= seq![a@, b@]);
    v
}

fn fx_none() -> (r: Vec<LoopEffect>)
    ensures
        loop_effects_view(r@) == Seq::<LoopEffectView>::empty(),
{
    let v: Vec<LoopEffect> = Vec::new();
    assert(loop_effects_view(v@) =~= Seq::<LoopEffectView>::empty());
    v
}

fn fx_concat(a: Vec<LoopEffect>, b: Vec<LoopEffect>) -> (r: Vec<LoopEffect>)
    ensures
        loop_effects_view(r@) == loop_effects_view(a@) + loop_effects_view(b@),
{
    let mut a = a;
    let mut b = b;
    let ghost av = a@;
    let ghost bv = b@;
    a.append(&mut b);
    assert(loop_effects_view(a@) =~= loop_effects_view(av) + loop_effects_view(bv));
    a
}

fn clone_opt_string(o: &Option<String>) -> (r: Option<String>)
    ensures
        opt_view(r) == opt_view(*o),
{
    match o {
        Some(s) => Some(s.clone()),
        None => None,
    }
}

fn is_text(s: &String, lit: &str) -> (b: bool)
    ensures
        b == (s@ == lit@),
{
    crate::text::str_eq_chars(lit, str_chars(s.as_str()).as_slice())
}

impl AudioLoopState {
    /// An idle loop with no sink, no output stream and stream metadata on.
    pub fn new(max_hardware_retries: u8) -> (s: Self)
        ensures
            !s@.has_sink,
            !s@.connecting,
            s@.pending is None,
            !s@.fading_in,
            s@.preferred is None,
            s@.metadata_enabled,
            !s@.reopen_next,
            !s@.output_open,
            s@.current_id == 0,
            s@.active_id == 0,
            s@.url is None,
            s@.retries == 0,
            s@.max_retries == max_hardware_retries,
            s@.awaiting is None,
    {
        AudioLoopState {
            has_sink: false,
            connecting: false,
            pending_action: None,
            fading_in: false,
            preferred_device: None,
            metadata_enabled: true,
            reopen_output_on_next_connection: false,
            output_open: false,
            current_conn_id: 0,
            active_conn_id: 0,
            current_url: None,
            hardware_retries: 0,
            max_hardware_retries,
            awaiting_output: None,
        }
    }

    fn spawn(&mut self, url: String) -> (r: Vec<LoopEffect>)
        requires
            old(self).current_conn_id < u64::MAX,
        ensures
            final(self)@ == spawn_step(old(self)@, url@).0,
            loop_effects_view(r@) == spawn_step(old(self)@, url@).1,
    {
        let reset = if self.reopen_output_on_next_connection {
            self.output_open = false;
            self.reopen_output_on_next_connection = false;
            fx1(LoopEffect::ResetOutput)
        } else {
            fx_none()
        };
        if !self.output_open {
            self.awaiting_output = Some(url);
            return fx_concat(reset, fx1(LoopEffect::OpenOutput));
        }
        let id = self.current_conn_id + 1;
        self.current_conn_id = id;
        self.active_conn_id = id;
        self.connecting = true;
        fx_concat(
            reset,
            fx2(
                LoopEffect::Emit(AudioStatus::Connecting),
                LoopEffect::Spawn { conn_id: id, url, metadata_enabled: self.metadata_enabled },
            ),
        )
    }

    fn start(&mut self, url: String, reset_retries: bool) -> (r: Vec<LoopEffect>)
        requires
            old(self).current_conn_id < u64::MAX,
        ensures
            final(self)@ == start_step(old(self)@, url@, reset_retries).0,
            loop_effects_view(r@) == start_step(old(self)@, url@, reset_retries).1,
    {
        self.current_url = Some(url.clone());
        if reset_retries {
            self.hardware_retries = 0;
        }
        self.spawn(url)
    }

    /// Carries out a command.
    pub fn handle_command(&mut self, command: LoopCommand) -> (r: Vec<LoopEffect>)
        requires
            old(self).current_conn_id < u64::MAX,
        ensures
            final(self)@ == loop_command_step(old(self)@, command).0,
            loop_effects_view(r@) == loop_command_step(old(self)@, command).1,
    {
        match command {
            LoopCommand::Play(url) => {
                if self.has_sink {
                    self.pending_action = Some(PendingAction::Play(url));
                    fx_none()
                } else {
                    self.start(url, true)
                }
            },
            LoopCommand::Pause => {
                if self.has_sink {
                    self.pending_action = None;
                    self.fading_in = false;
                    fx2(LoopEffect::PauseSink, LoopEffect::Emit(AudioStatus::Paused))
                } else {
                    fx_none()
                }
            },
            LoopCommand::Resume => {
                if self.has_sink {
                    self.pending_action = None;
                    self.fading_in = true;
                    fx2(LoopEffect::PlaySink, LoopEffect::Emit(AudioStatus::Playing))
                } else {
                    fx_none()
                }
            },
            LoopCommand::Stop => {
                if self.has_sink {
                    self.pending_action = Some(PendingAction::Stop);
                    fx_none()
                } else {
                    self.active_conn_id = 0;
                    self.connecting = false;
                    fx2(LoopEffect::AbandonConnection, LoopEffect::Emit(AudioStatus::Stopped))
                }
            },
            LoopCommand::SetOutputDevice(name) => {
                self.preferred_device = match &name {
                    Some(n) => normalize_output_device_name(Some(n.as_str())),
                    None => normalize_output_device_name(None),
                };
                if self.has_sink {
                    self.reopen_output_on_next_connection = true;
                    fx_none()
                } else {
                    self.output_open = false;
                    self.reopen_output_on_next_connection = false;
                    fx1(LoopEffect::ResetOutput)
                }
            },
            LoopCommand::SetStreamMetadata(enabled) => {
                self.metadata_enabled = enabled;
                fx_none()
            },
        }
    }

    /// Carries out the queued command, once the sink has faded out or when
    /// there is no sink.
    pub fn run_pending(&mut self) -> (r: Vec<LoopEffect>)
        requires
            old(self).current_conn_id < u64::MAX,
        ensures
            final(self)@ == pending_step(old(self)@).0,
            loop_effects_view(r@) == pending_step(old(self)@).1,
    {
        let stop_sink = if self.has_sink { fx1(LoopEffect::StopSink) } else { fx_none() };
        match self.pending_action.take() {
            None => fx_none(),
            Some(PendingAction::Play(url)) => {
                self.has_sink = false;
                let rest = self.start(url, true);
                fx_concat(stop_sink, rest)
            },
            Some(PendingAction::Stop) => {
                self.has_sink = false;
                self.active_conn_id = 0;
                self.connecting = false;
                fx_concat(
                    fx_concat(fx1(LoopEffect::AbandonConnection), stop_sink),
                    fx1(LoopEffect::Emit(AudioStatus::Stopped)),
                )
            },
        }
    }

    /// Takes the outcome of opening the output stream that an effect asked
    /// for (`Err` with the device's message).
    pub fn output_opened(&mut self, opened: Result<(), String>) -> (r: Vec<LoopEffect>)
        requires
            old(self).current_conn_id < u64::MAX,
        ensures
            final(self)@ == output_step(old(self)@, match opened { Ok(()) => Ok(()), Err(e) => Err(e@) }).0,
            loop_effects_view(r@) == output_step(old(self)@, match opened { Ok(()) => Ok(()), Err(e) => Err(e@) }).1,
    {
        let url = match self.awaiting_output.take() {
            Some(u) => u,
            None => return fx_none(),
        };
        match opened {
            Err(e) => {
                let mut text = str_chars("Soundcard error: ");
                let mut m = str_chars(e.as_str());
                text.append(&mut m);
                fx1(LoopEffect::Emit(AudioStatus::Error(crate::text::string_from_chars(text.as_slice()))))
            },
            Ok(()) => {
                self.output_open = true;
                self.spawn(url)
            },
        }
    }

    /// Takes the outcome of the connection thread.
    pub fn connection_finished(&mut self, result: ConnectionResult) -> (r: Vec<LoopEffect>)
        requires
            old(self).current_conn_id < u64::MAX,
        ensures
            final(self)@ == connection_step(old(self)@, result).0,
            loop_effects_view(r@) == connection_step(old(self)@, result).1,
    {
        self.connecting = false;
        match result {
            ConnectionResult::Ready => {
                self.has_sink = true;
                self.fading_in = true;
                fx2(LoopEffect::MuteSink, LoopEffect::Emit(AudioStatus::Playing))
            },
            ConnectionResult::Panicked => fx1(LoopEffect::Emit(AudioStatus::Error(
                crate::text::string_from_str("Connection thread panicked"),
            ))),
            ConnectionResult::Failed(error) => {
                if is_text(&error, "Abandoned") {
                    return fx_none();
                }
                if crate::audio::engine::is_hardware_output_error(error.as_str())
                    && self.hardware_retries < self.max_hardware_retries {
                    self.hardware_retries = self.hardware_retries + 1;
                    self.output_open = false;
                    let head = fx2(LoopEffect::ResetOutput, LoopEffect::Emit(AudioStatus::Connecting));
                    match clone_opt_string(&self.current_url) {
                        Some(url) => {
                            let rest = self.start(url, false);
                            fx_concat(head, rest)
                        },
                        None => fx_concat(head, fx1(LoopEffect::Emit(AudioStatus::Error(error)))),
                    }
                } else {
                    fx1(LoopEffect::Emit(AudioStatus::Error(error)))
                }
            },
        }
    }

    /// The sink ran dry: the stream has ended.
    pub fn sink_drained(&mut self) -> (r: Vec<LoopEffect>)
        ensures
            final(self)@ == (if old(self).has_sink { LoopView { has_sink: false, ..old(self)@ } } else { old(self)@ }),
            loop_effects_view(r@) == if old(self).has_sink {
                seq![LoopEffectView::Emit(StatusView::Stopped)]
            } else {
                Seq::<LoopEffectView>::empty()
            },
    {
        if self.has_sink {
            self.has_sink = false;
            fx1(LoopEffect::Emit(AudioStatus::Stopped))
        } else {
            fx_none()
        }
    }

    /// The fade-in reached its target (or there is no sink to fade).
    pub fn finish_fade_in(&mut self)
        ensures
            final(self)@ == (LoopView { fading_in: false, ..old(self)@ }),
    {
        self.fading_in = false;
    }

    /// A volume change applies to the sink at once only when no fade is under
    /// way.
    pub fn volume_applies_now(&self) -> (b: bool)
        ensures
            b == (!self.fading_in && self.pending_action.is_none()),
    {
        !self.fading_in && self.pending_action.is_none()
    }
}

/// While a sink plays, play and stop never cut it off: they wait for its
/// fade-out, with no effect now.
pub proof fn lemma_sink_commands_are_queued(s: LoopView, url: String)
    requires
        s.has_sink,
    ensures
        loop_command_step(s, LoopCommand::Play(url)).1 == Seq::<LoopEffectView>::empty(),
        loop_command_step(s, LoopCommand::Play(url)).0.pending == Some(PendingView::Play(url@)),
        loop_command_step(s, LoopCommand::Stop).1 == Seq::<LoopEffectView>::empty(),
        loop_command_step(s, LoopCommand::Stop).0.pending == Some(PendingView::Stop),
{
}

/// Hardware recovery never retries more often than allowed, and a stale
/// connection's end is never shown.
pub proof fn lemma_hardware_retries_bounded(s: LoopView, result: ConnectionResult)
    requires
        s.retries <= s.max_retries,
    ensures
        connection_step(s, result).0.retries <= s.max_retries,
        result matches ConnectionResult::Failed(e) && e@ == "Abandoned"@ ==> connection_step(s, result).1
            == Seq::<LoopEffectView>::empty(),
{
}

} // verus!
