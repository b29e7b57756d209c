//! The decisions of a stream worker: connect, prebuffer and decode one
//! stream, giving up as soon as its generation is no longer the active one.
//! The caller performs each action and reports what came of it.

use vstd::prelude::*;
use crate::audio::engine::{EngineError, ErrorView};
use crate::audio::prebuffer::{
    connect_failure, connect_failure_view, prebuffer_failure_error, prebuffer_failure_view,
    PrebufferFailure,
};
use crate::text::{str_chars, string_from_chars};

verus! {

/// Where a worker stands.
#[derive(Debug, Clone, Copy, PartialEq, Eq, Structural)]
pub enum WorkerStage {
    /// Nothing done yet.
    Starting,
    /// The request is on its way.
    Requesting,
    /// A successful response arrived; the prebuffer is being filled.
    Responded,
    /// The prebuffer is full; the decoder is being built.
    Buffered,
    /// The worker reported its outcome and does nothing more.
    Finished,
}

/// What came of the worker's last action.
#[derive(Debug)]
pub enum WorkerEvent {
    /// The worker starts; whether its generation is the active one.
    Started { active: bool },
    /// The HTTP client could not be built, with its message.
    ClientFailed(String),
    /// The request failed: whether it timed out, and the client's message.
    RequestFailed { timed_out: bool, message: String },
    /// The response headers arrived: whether the generation is still active,
    /// and the HTTP status.
    Responded { active: bool, status: u16 },
    /// The prebuffer is full; whether the generation is still active.
    Prebuffered { active: bool },
    /// Filling the prebuffer stopped short; the fill timeout in seconds.
    PrebufferFailed { failure: PrebufferFailure, fill_timeout_secs: u64 },
    /// Building the decoder ended, with its error if it failed.
    PipelineBuilt(Result<(), EngineError>),
}

/// What the worker does next.
#[derive(Debug)]
pub enum WorkerAction {
    /// Build the HTTP client and send the request.
    Connect,
    /// Read the response headers and fill the prebuffer.
    Prebuffer,
    /// Detect the codec and build the decoder.
    Decode,
    /// Report the stream as connected.
    ReportConnected,
    /// Report that the worker was abandoned.
    ReportAbandoned,
    /// Report the failure.
    ReportFailure(EngineError),
    /// The event does not belong to this stage: nothing to do.
    Ignore,
}

pub enum WorkerActionView {
    Connect,
    Prebuffer,
    Decode,
    ReportConnected,
    ReportAbandoned,
    ReportFailure(ErrorView),
    Ignore,
}

impl View for WorkerAction {
    type V = WorkerActionView;

    open spec fn view(&self) -> WorkerActionView {
        match self {
            WorkerAction::Connect => WorkerActionView::Connect,
            WorkerAction::Prebuffer => WorkerActionView::Prebuffer,
            WorkerAction::Decode => WorkerActionView::Decode,
            WorkerAction::ReportConnected => WorkerActionView::ReportConnected,
            WorkerAction::ReportAbandoned => WorkerActionView::ReportAbandoned,
            WorkerAction::ReportFailure(e) => WorkerActionView::ReportFailure(e@),
            WorkerAction::Ignore => WorkerActionView::Ignore,
        }
    }
}

/// An HTTP status of success (`200` to `299`).
pub open spec fn status_is_success(status: u16) -> bool {
    200 <= status <= 299
}

/// The report of a client that could not be built.
pub open spec fn client_failure_view(message: Seq<char>) -> ErrorView {
    ErrorView::Connect("could not initialize HTTP client: "@ + message)
}

/// One decision: the stage after `event` and the action to take. The
/// generation is checked when the worker starts, when the response arrives
/// and when the prebuffer is full; a generation found inactive ends the
/// worker as abandoned. A response of another status than success fails
/// with that status.
pub open spec fn worker_next(stage: WorkerStage, event: WorkerEvent) -> (WorkerStage, WorkerActionView) {
    match (stage, event) {
        (WorkerStage::Starting, WorkerEvent::Started { active }) => if active {
            (WorkerStage::Requesting, WorkerActionView::Connect)
        } else {
            (WorkerStage::Finished, WorkerActionView::ReportAbandoned)
        },
        (WorkerStage::Requesting, WorkerEvent::ClientFailed(m)) => (
            WorkerStage::Finished,
            WorkerActionView::ReportFailure(client_failure_view(m@)),
        ),
        (WorkerStage::Requesting, WorkerEvent::RequestFailed { timed_out, message }) => (
            WorkerStage::Finished,
            WorkerActionView::ReportFailure(connect_failure_view(timed_out, message@)),
        ),
        (WorkerStage::Requesting, WorkerEvent::Responded { active, status }) => if !active {
            (WorkerStage::Finished, WorkerActionView::ReportAbandoned)
        } else if !status_is_success(status) {
            (WorkerStage::Finished, WorkerActionView::ReportFailure(ErrorView::Http(status)))
        } else {
            (WorkerStage::Responded, WorkerActionView::Prebuffer)
        },
        (WorkerStage::Responded, WorkerEvent::Prebuffered { active }) => if active {
            (WorkerStage::Buffered, WorkerActionView::Decode)
        } else {
            (WorkerStage::Finished, WorkerActionView::ReportAbandoned)
        },
        (WorkerStage::Responded, WorkerEvent::PrebufferFailed { failure, fill_timeout_secs }) => match prebuffer_failure_view(
            failure,
            fill_timeout_secs,
        ) {
            Some(e) => (WorkerStage::Finished, WorkerActionView::ReportFailure(e)),
            None => (WorkerStage::Finished, WorkerActionView::ReportAbandoned),
        },
        (WorkerStage::Buffered, WorkerEvent::PipelineBuilt(r)) => match r {
            Ok(_) => (WorkerStage::Finished, WorkerActionView::ReportConnected),
            Err(e) => (WorkerStage::Finished, WorkerActionView::ReportFailure(e@)),
        },
        (s, _) => (s, WorkerActionView::Ignore),
    }
}

fn client_failure(message: &str) -> (e: EngineError)
    ensures
        e@ == client_failure_view(message@),
{
    let mut out = str_chars("could not initialize HTTP client: ");
    let mut m = str_chars(message);
    out.append(&mut m);
    proof {
        reveal_strlit("could not initialize HTTP client: ");
    }
    EngineError::Connect(string_from_chars(out.as_slice()))
}

/// The worker's next stage and action after `event`.
pub fn worker_step(stage: WorkerStage, event: WorkerEvent) -> (r: (WorkerStage, WorkerAction))
    ensures
        (r.0, r.1@) == worker_next(stage, event),
{
    match (stage, event) {
        (WorkerStage::Starting, WorkerEvent::Started { active }) => if active {
            (WorkerStage::Requesting, WorkerAction::Connect)
        } else {
            (WorkerStage::Finished, WorkerAction::ReportAbandoned)
        },
        (WorkerStage::Requesting, WorkerEvent::ClientFailed(m)) => (
            WorkerStage::Finished,
            WorkerAction::ReportFailure(client_failure(m.as_str())),
        ),
        (WorkerStage::Requesting, WorkerEvent::RequestFailed { timed_out, message }) => (
            WorkerStage::Finished,
            WorkerAction::ReportFailure(connect_failure(timed_out, message.as_str())),
        ),
        (WorkerStage::Requesting, WorkerEvent::Responded { active, status }) => if !active {
            (WorkerStage::Finished, WorkerAction::ReportAbandoned)
        } else if !(200 <= status && status <= 299) {
            (WorkerStage::Finished, WorkerAction::ReportFailure(EngineError::Http(status)))
        } else {
            (WorkerStage::Responded, WorkerAction::Prebuffer)
        },
        (WorkerStage::Responded, WorkerEvent::Prebuffered { active }) => if active {
            (WorkerStage::Buffered, WorkerAction::Decode)
        } else {
            (WorkerStage::Finished, WorkerAction::ReportAbandoned)
        },
        (WorkerStage::Responded, WorkerEvent::PrebufferFailed { failure, fill_timeout_secs }) => match prebuffer_failure_error(
            &failure,
            fill_timeout_secs,
        ) {
            Some(e) => (WorkerStage::Finished, WorkerAction::ReportFailure(e)),
            None => (WorkerStage::Finished, WorkerAction::ReportAbandoned),
        },
        (WorkerStage::Buffered, WorkerEvent::PipelineBuilt(r)) => match r {
            Ok(_) => (WorkerStage::Finished, WorkerAction::ReportConnected),
            Err(e) => (WorkerStage::Finished, WorkerAction::ReportFailure(e)),
        },
        (s, _) => (s, WorkerAction::Ignore),
    }
}

/// The action does outside work (connecting, reading or decoding).
pub open spec fn does_work(a: WorkerActionView) -> bool {
    a is Connect || a is Prebuffer || a is Decode
}

/// The action reports the worker's outcome.
pub open spec fn reports(a: WorkerActionView) -> bool {
    a is ReportConnected || a is ReportAbandoned || a is ReportFailure
}

/// The worker never works for an inactive generation: each step that
/// starts outside work follows an event that found the generation active
/// (or, for the request, a successful response that found it active).
pub proof fn lemma_work_only_while_active(stage: WorkerStage, event: WorkerEvent)
    requires
        does_work(worker_next(stage, event).1),
    ensures
        match event {
            WorkerEvent::Started { active } => active,
            WorkerEvent::Responded { active, status } => active && status_is_success(status),
            WorkerEvent::Prebuffered { active } => active,
            _ => false,
        },
{
}

/// An event that finds the generation inactive ends the worker as
/// abandoned, whatever else it says.
pub proof fn lemma_inactive_is_abandoned(stage: WorkerStage, event: WorkerEvent)
    requires
        match event {
            WorkerEvent::Started { active } => !active && stage == WorkerStage::Starting,
            WorkerEvent::Responded { active, status } => !active && stage == WorkerStage::Requesting,
            WorkerEvent::Prebuffered { active } => !active && stage == WorkerStage::Responded,
            _ => false,
        },
    ensures
        worker_next(stage, event) == (WorkerStage::Finished, WorkerActionView::ReportAbandoned),
{
}

/// A worker reports exactly once: a report finishes it, and a finished
/// worker ignores every later event.
pub proof fn lemma_reports_once(stage: WorkerStage, event: WorkerEvent, later: WorkerEvent)
    ensures
        reports(worker_next(stage, event).1) <==> worker_next(stage, event).0 == WorkerStage::Finished
            && stage != WorkerStage::Finished,
        worker_next(WorkerStage::Finished, later) == (WorkerStage::Finished, WorkerActionView::Ignore),
{
}

} // verus!
