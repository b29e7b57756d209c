//! Replay of the first bytes of a live stream, so that codec probing can
//! seek back to the start of a stream that cannot itself seek.
//!
//! The reader keeps the first `INITIAL_PROBE_BYTES` bytes it reads. Reads
//! inside that window are served again from memory; once the stream went
//! past the window, no seek can go back.

use vstd::prelude::*;

verus! {

/// How many leading bytes are kept for replay.
pub const INITIAL_PROBE_BYTES: usize = 4194304;

/// A position request, as `std::io::SeekFrom` makes it.
#[derive(Debug, Clone, Copy, PartialEq, Eq, Structural)]
pub enum SeekRequest {
    Start(u64),
    Current(i64),
    End(i64),
}

/// A seek that a live stream cannot serve.
#[derive(Debug, Clone, Copy, PartialEq, Eq, Structural)]
pub struct UnsupportedSeek;

/// The replay state of a stream reader; `inner` is the stream itself.
pub struct ProbeReplayReader<R> {
    pub inner: R,
    replay: Vec<u8>,
    pos: u64,
    read_past_replay: bool,
}

impl<R> ProbeReplayReader<R> {
    /// The bytes kept for replay.
    pub closed spec fn replayed(&self) -> Seq<u8> {
        self.replay@
    }

    /// The stream being read.
    pub closed spec fn stream(&self) -> R {
        self.inner
    }

    /// The stream position of the reader.
    pub closed spec fn position(&self) -> u64 {
        self.pos
    }

    /// The stream went past the replay window.
    pub closed spec fn went_past(&self) -> bool {
        self.read_past_replay
    }

    /// A reader of `inner` that has read nothing yet.
    pub fn new(inner: R) -> (r: Self)
        ensures
            r.replayed().len() == 0,
            r.position() == 0,
            !r.went_past(),
            r.stream() == inner,
    {
        ProbeReplayReader { inner, replay: Vec::new(), pos: 0, read_past_replay: false }
    }

    /// The stream position.
    pub fn stream_position(&self) -> (p: u64)
        ensures
            p == self.position(),
    {
        self.pos
    }

    /// The next at most `max` bytes from the replay window, when the
    /// position is inside it; `None` means the stream itself must be read
    /// (and the result handed to `record_stream_read`).
    pub fn read_from_replay(&mut self, max: usize) -> (r: Option<Vec<u8>>)
        ensures
            final(self).stream() == old(self).stream(),
            final(self).replayed() == old(self).replayed(),
            final(self).went_past() == old(self).went_past(),
            old(self).position() < old(self).replayed().len() ==> {
                let n = if old(self).replayed().len() - old(self).position() < max {
                    old(self).replayed().len() - old(self).position()
                } else {
                    max as int
                };
                &&& r matches Some(bytes)
                &&& bytes@ == old(self).replayed().subrange(old(self).position() as int, old(self).position() + n)
                &&& final(self).position() == old(self).position() + n
            },
            old(self).position() >= old(self).replayed().len() ==> r is None && final(self).position() == old(
                self,
            ).position(),
    {
        let replay_len = self.replay.len() as u64;
        if self.pos >= replay_len {
            return None;
        }
        let available = (replay_len - self.pos) as usize;
        let n = if available < max { available } else { max };
        let start = self.pos as usize;
        assert(start as int == self.pos as int);
        assert(start + n <= self.replay@.len());
        let mut out: Vec<u8> = Vec::new();
        let mut i: usize = 0;
        let replay = &self.replay;
        while i < n
            invariant
                i <= n,
                start + n <= replay.len(),
                out@ == replay@.subrange(start as int, start + i),
            decreases n - i,
        {
            out.push(replay[start + i]);
            assert(replay@.subrange(start as int, start + i + 1) =~= replay@.subrange(
                start as int,
                start + i,
            ).push(replay@[start + i]));
            i += 1;
        }
        self.pos = self.pos + n as u64;
        Some(out)
    }

    /// Takes note of bytes just read from the stream itself: they extend the
    /// replay window while it has room; beyond it the reader can no longer
    /// seek back.
    pub fn record_stream_read(&mut self, bytes: &[u8])
        requires
            old(self).position() + bytes@.len() <= u64::MAX,
        ensures
            final(self).stream() == old(self).stream(),
            final(self).position() == old(self).position() + bytes@.len(),
            ({
                let room = if old(self).replayed().len() < INITIAL_PROBE_BYTES {
                    INITIAL_PROBE_BYTES - old(self).replayed().len()
                } else {
                    0
                };
                let captured = if bytes@.len() < room { bytes@.len() as int } else { room };
                &&& final(self).replayed() == old(self).replayed() + bytes@.take(captured)
                &&& final(self).went_past() == (old(self).went_past() || captured < bytes@.len())
            }),
    {
        let n = bytes.len();
        if n > 0 {
            if self.replay.len() < INITIAL_PROBE_BYTES {
                let remaining = INITIAL_PROBE_BYTES - self.replay.len();
                let captured = if n < remaining { n } else { remaining };
                let mut i: usize = 0;
                let ghost start = self.replay@;
                let ghost pos0 = self.pos;
                let ghost past0 = self.read_past_replay;
                let ghost inner0 = self.inner;
                while i < captured
                    invariant
                        i <= captured <= n,
                        self.pos == pos0,
                        self.read_past_replay == past0,
                        self.inner == inner0,
                        n == bytes@.len(),
                        start.len() + captured <= INITIAL_PROBE_BYTES,
                        self.replay@ == start + bytes@.take(i as int),
                    decreases captured - i,
                {
                    self.replay.push(bytes[i]);
                    assert(bytes@.take(i + 1) =~= bytes@.take(i as int).push(bytes@[i as int]));
                    i += 1;
                }
                if captured < n {
                    self.read_past_replay = true;
                }
            } else {
                self.read_past_replay = true;
                assert(bytes@.take(0) =~= Seq::<u8>::empty());
                assert(self.replay@ =~= self.replay@ + bytes@.take(0));
            }
        } else {
            assert(bytes@.take(0) =~= Seq::<u8>::empty());
            assert(self.replay@ =~= self.replay@ + bytes@.take(0));
        }
        self.pos = self.pos + n as u64;
    }

    /// Moves the position: anywhere inside the replay window while the
    /// stream has not gone past it; the current position always; nothing
    /// relative to the end, and nothing else.
    pub fn seek(&mut self, request: SeekRequest) -> (r: Result<u64, UnsupportedSeek>)
        ensures
            final(self).stream() == old(self).stream(),
            final(self).replayed() == old(self).replayed(),
            final(self).went_past() == old(self).went_past(),
            r == seek_result(old(self).position(), old(self).replayed().len(), old(self).went_past(), request),
            final(self).position() == match r {
                Ok(p) => p,
                Err(_) => old(self).position(),
            },
    {
        let target = match request {
            SeekRequest::Start(n) => n,
            SeekRequest::Current(0) => return Ok(self.pos),
            SeekRequest::Current(offset) => {
                if offset < 0 {
                    let back: u64 = if offset == i64::MIN { 9223372036854775808u64 } else { (-offset) as u64 };
                    if back > self.pos {
                        return Err(UnsupportedSeek);
                    }
                    self.pos - back
                } else {
                    let fwd = offset as u64;
                    if self.pos > u64::MAX - fwd { u64::MAX } else { self.pos + fwd }
                }
            },
            SeekRequest::End(_) => return Err(UnsupportedSeek),
        };
        if target == self.pos {
            return Ok(self.pos);
        }
        if self.read_past_replay {
            return Err(UnsupportedSeek);
        }
        if target <= self.replay.len() as u64 {
            self.pos = target;
            Ok(self.pos)
        } else {
            Err(UnsupportedSeek)
        }
    }
}

/// Where a seek request points from `pos`; `None` before the start.
pub open spec fn seek_target(pos: u64, request: SeekRequest) -> Option<u64> {
    match request {
        SeekRequest::Start(n) => Some(n),
        SeekRequest::Current(off) => if off < 0 {
            if -(off as int) > pos { None } else { Some((pos + off) as u64) }
        } else if pos + off > u64::MAX {
            Some(u64::MAX)
        } else {
            Some((pos + off) as u64)
        },
        SeekRequest::End(_) => None,
    }
}

/// The outcome of a seek: staying put always succeeds, a seek from the end
/// never does, and a move succeeds exactly when it stays inside the replay
/// window and the stream has not gone past it.
pub open spec fn seek_result(pos: u64, replay_len: nat, went_past: bool, request: SeekRequest) -> Result<u64, UnsupportedSeek> {
    if request == SeekRequest::Current(0) {
        Ok(pos)
    } else {
        match seek_target(pos, request) {
            None => Err(UnsupportedSeek),
            Some(t) => if t == pos {
                Ok(pos)
            } else if went_past {
                Err(UnsupportedSeek)
            } else if t <= replay_len {
                Ok(t)
            } else {
                Err(UnsupportedSeek)
            },
        }
    }
}

/// Until the stream goes past the replay window, a seek to any position
/// inside the window succeeds; afterwards only staying put does.
pub proof fn lemma_seek_inside_window(pos: u64, replay_len: nat, went_past: bool, t: u64)
    ensures
        !went_past && t <= replay_len ==> seek_result(pos, replay_len, went_past, SeekRequest::Start(t)) == Ok::<u64, UnsupportedSeek>(t),
        went_past && t != pos ==> seek_result(pos, replay_len, went_past, SeekRequest::Start(t)) == Err::<u64, UnsupportedSeek>(UnsupportedSeek),
        seek_result(pos, replay_len, went_past, SeekRequest::End(0)) == Err::<u64, UnsupportedSeek>(UnsupportedSeek),
{
}

/// The position of a live stream handed to the decoder after probing: it
/// counts the bytes read and can only report where it is.
#[derive(Debug, Clone, Copy, PartialEq, Eq)]
pub struct LivePosition {
    pub pos: u64,
}

/// What a seek on a live stream gives: the position for "where am I", 0 for
/// a rewind that does not move, and nothing else.
pub open spec fn live_seek_result(pos: u64, request: SeekRequest) -> Result<u64, UnsupportedSeek> {
    match request {
        SeekRequest::Current(0) => Ok(pos),
        SeekRequest::Start(0) => if pos == 0 { Ok(0) } else { Err(UnsupportedSeek) },
        _ => Err(UnsupportedSeek),
    }
}

impl LivePosition {
    /// At the start of the stream.
    pub fn new() -> (p: Self)
        ensures
            p.pos == 0,
    {
        LivePosition { pos: 0 }
    }

    /// Counts `n` more bytes read.
    pub fn advance(&mut self, n: usize)
        requires
            old(self).pos + n <= u64::MAX,
        ensures
            final(self).pos == old(self).pos + n,
    {
        self.pos = self.pos + n as u64;
    }

    /// Answers a seek without moving.
    pub fn seek(&self, request: SeekRequest) -> (r: Result<u64, UnsupportedSeek>)
        ensures
            r == live_seek_result(self.pos, request),
    {
        match request {
            SeekRequest::Current(0) => Ok(self.pos),
            SeekRequest::Start(0) => if self.pos == 0 { Ok(0) } else { Err(UnsupportedSeek) },
            _ => Err(UnsupportedSeek),
        }
    }
}

} // verus!
