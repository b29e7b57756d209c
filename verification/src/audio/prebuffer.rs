//! The decisions of a connection worker: filling the prebuffer before the
//! codec is probed, telling its failures apart, and the failures reported
//! for the connection itself.
//!
//! The worker does the network reads and the clock; each read's outcome and
//! the worker's state come back here, which says what to do next.

use vstd::prelude::*;
use crate::audio::engine::EngineError;
use crate::text::{
    ascii_lower, chars_ascii_lower, chars_eq_ignore_ascii_case, contains, contains_chars,
    decimal, eq_ignore_ascii_case, parse_unsigned, parse_unsigned_chars, str_chars,
    string_from_chars, u64_decimal,
};

verus! {

/// The largest read the worker makes at a time.
pub const CHUNK_BYTES: usize = 4096;

/// The largest ICY metadata interval that is honoured.
pub const MAX_ICY_METAINT: usize = 16777216;

/// The bytes a connection wants before probing the codec, by default.
pub const DEFAULT_PREBUFFER_MIN_BYTES: usize = 32768;

/// The most bytes a connection collects before probing, by default.
pub const DEFAULT_PREBUFFER_MAX_BYTES: usize = 524288;

/// Seconds a connection may take to fill its prebuffer, by default.
pub const DEFAULT_FILL_TIMEOUT_SECS: u64 = 8;

/// Seconds the HTTP client waits for a response or a body read.
pub const STREAM_READ_TIMEOUT_SECS: u64 = 8;

/// Why filling the prebuffer stopped short.
#[derive(Debug, Clone, PartialEq, Eq)]
pub enum PrebufferFailure {
    /// The worker's generation is no longer wanted.
    Abandoned,
    /// The fill timeout passed before enough data arrived.
    Timeout,
    /// The stream failed or ended before sending any data.
    Read(String),
}

/// What the worker does next while filling the prebuffer.
#[derive(Debug, Clone, PartialEq, Eq)]
pub enum PrebufferStep {
    /// Enough data, or no room for more: stop filling.
    Done,
    /// Read at most this many bytes from the stream.
    Read(usize),
    /// Give up.
    Fail(PrebufferFailure),
}

/// The outcome of one stream read, classified by the worker.
#[derive(Debug, Clone, PartialEq, Eq)]
pub enum ReadOutcome {
    /// The bytes read; none means the stream ended.
    Data(Vec<u8>),
    /// The read failed because the worker was abandoned.
    Abandoned,
    /// The read timed out.
    TimedOut,
    /// Any other failure, with its message.
    Failed(String),
}

/// The bytes collected before probing, and the limits of the fill.
pub struct Prebuffer {
    data: Vec<u8>,
    min_bytes: usize,
    max_bytes: usize,
    requested: usize,
}

/// The progress reported while buffering: the share of the minimum received,
/// in percent, never more than 99 (and 99 when no minimum is set or the
/// product overflows).
pub open spec fn buffering_percent(len: nat, min_bytes: nat) -> u8 {
    if min_bytes == 0 || len * 100 > usize::MAX {
        99
    } else if (len * 100) / min_bytes < 99 {
        ((len * 100) / min_bytes) as u8
    } else {
        99
    }
}

/// The next step of the fill, given whether the worker is still wanted and
/// whether the fill timeout has passed.
pub open spec fn fill_step(len: nat, min_bytes: nat, max_bytes: nat, active: bool, timed_out: bool) -> PrebufferStep {
    if len >= min_bytes {
        PrebufferStep::Done
    } else if !active {
        PrebufferStep::Fail(PrebufferFailure::Abandoned)
    } else if timed_out {
        PrebufferStep::Fail(PrebufferFailure::Timeout)
    } else if max_bytes <= len {
        PrebufferStep::Done
    } else if max_bytes - len < CHUNK_BYTES {
        PrebufferStep::Read((max_bytes - len) as usize)
    } else {
        PrebufferStep::Read(CHUNK_BYTES)
    }
}

impl Prebuffer {
    pub closed spec fn bytes(&self) -> Seq<u8> {
        self.data@
    }

    pub closed spec fn min(&self) -> nat {
        self.min_bytes as nat
    }

    pub closed spec fn max(&self) -> nat {
        self.max_bytes as nat
    }

    /// The size of the last read asked for.
    pub closed spec fn asked(&self) -> nat {
        self.requested as nat
    }

    /// An empty prebuffer that wants `min_bytes` and holds at most
    /// `max_bytes`.
    pub fn new(min_bytes: usize, max_bytes: usize) -> (p: Self)
        ensures
            p.bytes().len() == 0,
            p.min() == min_bytes,
            p.max() == max_bytes,
            p.asked() == 0,
    {
        Prebuffer { data: Vec::new(), min_bytes, max_bytes, requested: 0 }
    }

    /// What to do next; a read step is remembered as the size asked for.
    pub fn next_step(&mut self, active: bool, timed_out: bool) -> (s: PrebufferStep)
        ensures
            s == fill_step(old(self).bytes().len(), old(self).min(), old(self).max(), active, timed_out),
            final(self).bytes() == old(self).bytes(),
            final(self).min() == old(self).min(),
            final(self).max() == old(self).max(),
            final(self).asked() == match s {
                PrebufferStep::Read(n) => n as nat,
                _ => old(self).asked(),
            },
    {
        let len = self.data.len();
        if len >= self.min_bytes {
            return PrebufferStep::Done;
        }
        if !active {
            return PrebufferStep::Fail(PrebufferFailure::Abandoned);
        }
        if timed_out {
            return PrebufferStep::Fail(PrebufferFailure::Timeout);
        }
        let remaining = if self.max_bytes > len { self.max_bytes - len } else { 0 };
        if remaining == 0 {
            return PrebufferStep::Done;
        }
        let n = if remaining < CHUNK_BYTES { remaining } else { CHUNK_BYTES };
        self.requested = n;
        PrebufferStep::Read(n)
    }

    /// Takes in the outcome of the read just made, given whether the worker
    /// is still wanted and whether the fill timeout has passed: `Ok(Some(p))`
    /// to report `p` percent and go on, `Ok(None)` when the stream ended,
    /// `Err` to give up.
    pub fn after_read(&mut self, outcome: ReadOutcome, active: bool, timed_out: bool) -> (r: Result<Option<u8>, PrebufferFailure>)
        requires
            outcome matches ReadOutcome::Data(b) ==> b@.len() <= old(self).asked(),
        ensures
            final(self).min() == old(self).min(),
            final(self).max() == old(self).max(),
            final(self).asked() == old(self).asked(),
            match outcome {
                ReadOutcome::Data(b) => {
                    &&& final(self).bytes() == old(self).bytes() + b@
                    &&& r == if b@.len() == 0 {
                        Ok(None)
                    } else if !active {
                        Err(PrebufferFailure::Abandoned)
                    } else if timed_out && final(self).bytes().len() < old(self).min() {
                        Err(PrebufferFailure::Timeout)
                    } else {
                        Ok(Some(buffering_percent(final(self).bytes().len(), old(self).min())))
                    }
                },
                ReadOutcome::Abandoned => final(self).bytes() == old(self).bytes() && r == Err::<Option<u8>, PrebufferFailure>(PrebufferFailure::Abandoned),
                ReadOutcome::TimedOut => final(self).bytes() == old(self).bytes() && r == Err::<Option<u8>, PrebufferFailure>(PrebufferFailure::Timeout),
                ReadOutcome::Failed(e) => final(self).bytes() == old(self).bytes() && (r matches Err(PrebufferFailure::Read(m)) && m@ == e@),
            },
    {
        match outcome {
            ReadOutcome::Data(bytes) => {
                if bytes.len() == 0 {
                    return Ok(None);
                }
                let mut i: usize = 0;
                let ghost start = self.data@;
                let ghost min0 = self.min_bytes;
                let ghost max0 = self.max_bytes;
                let ghost req0 = self.requested;
                while i < bytes.len()
                    invariant
                        i <= bytes@.len(),
                        self.data@ == start + bytes@.take(i as int),
                        self.min_bytes == min0,
                        self.max_bytes == max0,
                        self.requested == req0,
                    decreases bytes@.len() - i,
                {
                    self.data.push(bytes[i]);
                    assert(bytes@.take(i + 1) =~= bytes@.take(i as int).push(bytes@[i as int]));
                    i += 1;
                }
                assert(bytes@.take(bytes@.len() as int) =~= bytes@);
                if !active {
                    return Err(PrebufferFailure::Abandoned);
                }
                if timed_out && self.data.len() < self.min_bytes {
                    return Err(PrebufferFailure::Timeout);
                }
                Ok(Some(percent(self.data.len(), self.min_bytes)))
            },
            ReadOutcome::Abandoned => Err(PrebufferFailure::Abandoned),
            ReadOutcome::TimedOut => Err(PrebufferFailure::Timeout),
            ReadOutcome::Failed(e) => Err(PrebufferFailure::Read(e)),
        }
    }

    /// The prebuffer once filling stopped; nothing at all is a failure.
    pub fn finish(self) -> (r: Result<Vec<u8>, PrebufferFailure>)
        ensures
            self.bytes().len() == 0 ==> (r matches Err(PrebufferFailure::Read(m)) && m@
                == "stream ended before sending audio data"@),
            self.bytes().len() > 0 ==> (r matches Ok(v) && v@ == self.bytes()),
    {
        if self.data.len() == 0 {
            Err(PrebufferFailure::Read(crate::text::string_from_str("stream ended before sending audio data")))
        } else {
            Ok(self.data)
        }
    }
}

/// The buffering progress in percent.
pub fn percent(len: usize, min_bytes: usize) -> (p: u8)
    ensures
        p == buffering_percent(len as nat, min_bytes as nat),
{
    if min_bytes == 0 {
        return 99;
    }
    if len > usize::MAX / 100 {
        proof {
            assert(len * 100 > usize::MAX) by (nonlinear_arith)
                requires
                    len > usize::MAX / 100,
            ;
        }
        return 99;
    }
    proof {
        assert(len * 100 <= usize::MAX) by (nonlinear_arith)
            requires
                len <= usize::MAX / 100,
        ;
    }
    let pct = (len * 100) / min_bytes;
    if pct < 99 { pct as u8 } else { 99 }
}

/// A read that failed because the worker was abandoned.
pub fn is_abandoned_error(message: &str) -> (b: bool)
    ensures
        b == eq_ignore_ascii_case(message@, "abandoned"@),
{
    chars_eq_ignore_ascii_case(str_chars(message).as_slice(), str_chars("abandoned").as_slice())
}

/// A read that timed out: by its kind (timed out or would block), or by a
/// message that says so.
pub fn is_timeout_error(kind_is_timeout: bool, message: &str) -> (b: bool)
    ensures
        b == (kind_is_timeout || contains(ascii_lower(message@), "timed out"@) || contains(
            ascii_lower(message@),
            "timeout"@,
        )),
{
    if kind_is_timeout {
        return true;
    }
    let lower = chars_ascii_lower(str_chars(message).as_slice());
    contains_chars(lower.as_slice(), str_chars("timed out").as_slice())
        || contains_chars(lower.as_slice(), str_chars("timeout").as_slice())
}

/// The ICY metadata interval to honour: only when metadata was asked for,
/// from a header value that is a number between 1 and `MAX_ICY_METAINT`.
pub fn icy_metaint(metadata_enabled: bool, header: Option<&str>) -> (r: Option<usize>)
    ensures
        r == if !metadata_enabled {
            None
        } else {
            match header {
                Some(h) => match parse_unsigned(h@, usize::MAX as nat) {
                    Some(v) => if 0 < v && v <= MAX_ICY_METAINT { Some(v as usize) } else { None },
                    None => None,
                },
                None => None,
            }
        },
{
    if !metadata_enabled {
        return None;
    }
    let h = match header {
        Some(h) => h,
        None => return None,
    };
    match parse_unsigned_chars(str_chars(h).as_slice(), usize::MAX as u64) {
        Some(v) => if 0 < v && v <= MAX_ICY_METAINT as u64 { Some(v as usize) } else { None },
        None => None,
    }
}

fn concat_message(prefix: &str, middle: &[char], suffix: &str) -> (r: String)
    ensures
        r@ == prefix@ + middle@ + suffix@,
{
    let mut out = str_chars(prefix);
    let mut i: usize = 0;
    let ghost start = out@;
    while i < middle.len()
        invariant
            i <= middle.len(),
            out@ == start + middle@.take(i as int),
        decreases middle.len() - i,
    {
        out.push(middle[i]);
        assert(middle@.take(i + 1) =~= middle@.take(i as int).push(middle@[i as int]));
        i += 1;
    }
    assert(middle@.take(middle.len() as int) =~= middle@);
    let mut tail = str_chars(suffix);
    out.append(&mut tail);
    string_from_chars(out.as_slice())
}

/// The failure reported when the stream could not be reached: a timeout
/// names the read timeout, anything else gives the client's message.
pub open spec fn connect_failure_view(timed_out: bool, message: Seq<char>) -> crate::audio::engine::ErrorView {
    if timed_out {
        crate::audio::engine::ErrorView::Connect(
            "connection or response headers timed out after "@ + decimal(STREAM_READ_TIMEOUT_SECS as nat) + " seconds"@,
        )
    } else {
        crate::audio::engine::ErrorView::Connect("could not connect: "@ + message)
    }
}

/// The failure reported when the stream could not be reached.
pub fn connect_failure(timed_out: bool, message: &str) -> (e: EngineError)
    ensures
        e@ == connect_failure_view(timed_out, message@),
{
    proof {
        reveal_strlit("");
        assert(message@ + ""@ =~= message@);
    }
    if timed_out {
        EngineError::Connect(concat_message(
            "connection or response headers timed out after ",
            u64_decimal(STREAM_READ_TIMEOUT_SECS).as_slice(),
            " seconds",
        ))
    } else {
        let text = concat_message("could not connect: ", str_chars(message).as_slice(), "");
        assert(text@ =~= "could not connect: "@ + message@);
        EngineError::Connect(text)
    }
}

/// The failure reported for a prebuffer that could not be filled; none for
/// an abandoned worker, which reports its end instead.
pub open spec fn prebuffer_failure_view(failure: PrebufferFailure, fill_timeout_secs: u64) -> Option<crate::audio::engine::ErrorView> {
    match failure {
        PrebufferFailure::Abandoned => None,
        PrebufferFailure::Timeout => Some(crate::audio::engine::ErrorView::Connect(
            "stream read timed out while buffering after "@ + decimal(fill_timeout_secs as nat) + " seconds"@,
        )),
        PrebufferFailure::Read(m) => Some(crate::audio::engine::ErrorView::Connect(
            "stream read failed while buffering: "@ + m@,
        )),
    }
}

/// The failure reported for a prebuffer that could not be filled.
pub fn prebuffer_failure_error(failure: &PrebufferFailure, fill_timeout_secs: u64) -> (e: Option<EngineError>)
    ensures
        match e {
            Some(x) => prebuffer_failure_view(*failure, fill_timeout_secs) == Some(x@),
            None => prebuffer_failure_view(*failure, fill_timeout_secs) is None,
        },
{
    proof {
        reveal_strlit("");
    }
    match failure {
        PrebufferFailure::Abandoned => None,
        PrebufferFailure::Timeout => Some(EngineError::Connect(concat_message(
            "stream read timed out while buffering after ",
            u64_decimal(fill_timeout_secs).as_slice(),
            " seconds",
        ))),
        PrebufferFailure::Read(m) => {
            let text = concat_message("stream read failed while buffering: ", str_chars(m.as_str()).as_slice(), "");
            assert(text@ =~= "stream read failed while buffering: "@ + m@);
            Some(EngineError::Connect(text))
        },
    }
}

/// A read the fill asks for is never empty, never larger than a chunk, and
/// never takes the prebuffer past its maximum; once the minimum is reached
/// the fill stops, whatever else holds.
pub proof fn lemma_fill_stays_within_bounds(len: nat, min_bytes: nat, max_bytes: nat, active: bool, timed_out: bool)
    ensures
        fill_step(len, min_bytes, max_bytes, active, timed_out) matches PrebufferStep::Read(n) ==> (0 < n
            <= CHUNK_BYTES && len + n <= max_bytes),
        len >= min_bytes ==> fill_step(len, min_bytes, max_bytes, active, timed_out) == PrebufferStep::Done,
{
}

/// The reported progress never reaches 100 percent.
pub proof fn lemma_percent_below_hundred(len: nat, min_bytes: nat)
    ensures
        buffering_percent(len, min_bytes) <= 99,
{
}

} // verus!
