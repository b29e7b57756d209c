//! Removal of ICY metadata from a radio stream.
//!
//! An ICY stream interleaves `metaint` audio bytes with metadata blocks: a
//! length byte, then sixteen times that many bytes of text (none when the
//! length is 0). The demultiplexer takes the stream's bytes in pieces of any
//! size and gives back the audio bytes, and the stream titles of the blocks
//! whenever the title changes.

use vstd::prelude::*;
use vstd::utf8::{decode_utf8, valid_utf8};
use crate::audio::metadata::{parse_stream_title, stream_title_of};

verus! {

/// Calls `String::from_utf8`: the text of the bytes when they are UTF-8,
/// nothing otherwise.
#[verifier::external_body]
fn utf8_text(bytes: Vec<u8>) -> (r: Option<String>)
    ensures
        match r {
            Some(s) => valid_utf8(bytes@) && s@ == decode_utf8(bytes@),
            None => !valid_utf8(bytes@),
        },
{
    String::from_utf8(bytes).ok()
}

/// Where the demultiplexer is in the stream.
pub struct IcyDemux {
    metaint: usize,
    until_meta: usize,
    in_body: bool,
    body_left: usize,
    body: Vec<u8>,
    last_title: Option<String>,
}

pub struct IcyView {
    pub metaint: nat,
    pub until_meta: nat,
    pub in_body: bool,
    pub body_left: nat,
    pub body: Seq<u8>,
    pub last_title: Option<Seq<char>>,
}

impl View for IcyDemux {
    type V = IcyView;

    closed spec fn view(&self) -> IcyView {
        IcyView {
            metaint: self.metaint as nat,
            until_meta: self.until_meta as nat,
            in_body: self.in_body,
            body_left: self.body_left as nat,
            body: self.body@,
            last_title: match self.last_title {
                Some(t) => Some(t@),
                None => None,
            },
        }
    }
}

/// The stream title of a metadata block: from its text, when it is UTF-8.
pub open spec fn block_title(body: Seq<u8>) -> Option<Seq<char>> {
    if valid_utf8(body) {
        stream_title_of(decode_utf8(body))
    } else {
        None
    }
}

/// One byte of the stream: a byte of a metadata block's text, the length
/// byte of a block, or an audio byte. A finished block's title is reported
/// when it differs from the last one.
pub open spec fn icy_step(s: IcyView, b: u8) -> (IcyView, Seq<u8>, Seq<Seq<char>>) {
    if s.in_body {
        let body = s.body.push(b);
        if s.body_left <= 1 {
            let done = IcyView { in_body: false, body_left: 0, body: Seq::empty(), until_meta: s.metaint, ..s };
            match block_title(body) {
                Some(t) => if s.last_title != Some(t) {
                    (IcyView { last_title: Some(t), ..done }, Seq::empty(), seq![t])
                } else {
                    (done, Seq::empty(), Seq::empty())
                },
                None => (done, Seq::empty(), Seq::empty()),
            }
        } else {
            (IcyView { body, body_left: (s.body_left - 1) as nat, ..s }, Seq::empty(), Seq::empty())
        }
    } else if s.until_meta == 0 {
        if b == 0 {
            (IcyView { until_meta: s.metaint, ..s }, Seq::empty(), Seq::empty())
        } else {
            (IcyView { in_body: true, body_left: b as nat * 16, body: Seq::empty(), ..s }, Seq::empty(), Seq::empty())
        }
    } else {
        (IcyView { until_meta: (s.until_meta - 1) as nat, ..s }, seq![b], Seq::empty())
    }
}

/// The demultiplexer run over `bytes`: its state after them, the audio
/// bytes, and the titles reported.
pub open spec fn icy_run(s: IcyView, bytes: Seq<u8>) -> (IcyView, Seq<u8>, Seq<Seq<char>>)
    decreases bytes.len(),
{
    if bytes.len() == 0 {
        (s, Seq::empty(), Seq::empty())
    } else {
        let (s1, a1, t1) = icy_run(s, bytes.drop_last());
        let (s2, a2, t2) = icy_step(s1, bytes.last());
        (s2, a1 + a2, t1 + t2)
    }
}

/// What one piece of the stream gave.
pub struct IcyOutput {
    pub audio: Vec<u8>,
    pub titles: Vec<String>,
}

pub open spec fn titles_view(v: Seq<String>) -> Seq<Seq<char>> {
    v.map_values(|t: String| t@)
}

impl IcyDemux {
    /// The state before the first byte of a stream with the given metadata
    /// interval (which is not 0).
    pub fn new(metaint: usize) -> (d: Self)
        requires
            metaint > 0,
        ensures
            d@.metaint == metaint,
            d@.until_meta == metaint,
            !d@.in_body,
            d@.body_left == 0,
            d@.body.len() == 0,
            d@.last_title is None,
            d.wf(),
    {
        IcyDemux { metaint, until_meta: metaint, in_body: false, body_left: 0, body: Vec::new(), last_title: None }
    }

    pub closed spec fn wf(&self) -> bool {
        &&& self.metaint > 0
        &&& self.until_meta <= self.metaint
        &&& (self.in_body ==> self.body_left > 0 && self.body_left <= 4080 && self.body@.len() + self.body_left <= 4080)
        &&& (!self.in_body ==> self.body@.len() == 0 && self.body_left == 0)
    }

    fn step(&mut self, b: u8, out: &mut IcyOutput)
        requires
            old(self).wf(),
        ensures
            final(self).wf(),
            final(self)@ == icy_step(old(self)@, b).0,
            final(out).audio@ == old(out).audio@ + icy_step(old(self)@, b).1,
            titles_view(final(out).titles@) == titles_view(old(out).titles@) + icy_step(old(self)@, b).2,
    {
        if self.in_body {
            self.body.push(b);
            if self.body_left <= 1 {
                let mut body: Vec<u8> = Vec::new();
                std::mem::swap(&mut body, &mut self.body);
                let ghost bv = body@;
                self.in_body = false;
                self.body_left = 0;
                self.until_meta = self.metaint;
                let title = match utf8_text(body) {
                    Some(text) => parse_stream_title(text.as_str()),
                    None => None,
                };
                assert(title matches Some(t) ==> block_title(bv) == Some(t@));
                assert(title is None ==> block_title(bv) is None);
                if let Some(t) = title {
                    let same = match &self.last_title {
                        Some(last) => *last == t,
                        None => false,
                    };
                    if !same {
                        let ghost before = out.titles@;
                        self.last_title = Some(t.clone());
                        out.titles.push(t);
                        assert(titles_view(out.titles@) =~= titles_view(before).push(t@));
                    }
                }
                assert(self.body@ =~= Seq::<u8>::empty());
            } else {
                self.body_left = self.body_left - 1;
            }
            assert(out.audio@ =~= old(out).audio@ + Seq::<u8>::empty());
            assert(titles_view(out.titles@) =~= titles_view(out.titles@) + Seq::<Seq<char>>::empty());
        } else if self.until_meta == 0 {
            if b == 0 {
                self.until_meta = self.metaint;
            } else {
                self.in_body = true;
                self.body_left = b as usize * 16;
                self.body = Vec::new();
            }
            assert(out.audio@ =~= old(out).audio@ + Seq::<u8>::empty());
            assert(titles_view(out.titles@) =~= titles_view(out.titles@) + Seq::<Seq<char>>::empty());
        } else {
            self.until_meta = self.until_meta - 1;
            out.audio.push(b);
            assert(titles_view(out.titles@) =~= titles_view(out.titles@) + Seq::<Seq<char>>::empty());
        }
    }

    /// Takes the next piece of the stream: gives its audio bytes and the
    /// titles of the metadata blocks it completed, when they changed.
    pub fn feed(&mut self, bytes: &[u8]) -> (r: IcyOutput)
        requires
            old(self).wf(),
        ensures
            final(self).wf(),
            final(self)@ == icy_run(old(self)@, bytes@).0,
            r.audio@ == icy_run(old(self)@, bytes@).1,
            titles_view(r.titles@) == icy_run(old(self)@, bytes@).2,
    {
        let ghost start = self@;
        let mut out = IcyOutput { audio: Vec::new(), titles: Vec::new() };
        let mut i: usize = 0;
        assert(bytes@.take(0) =~= Seq::<u8>::empty());
        assert(titles_view(out.titles@) =~= Seq::<Seq<char>>::empty());
        while i < bytes.len()
            invariant
                i <= bytes.len(),
                self.wf(),
                self@ == icy_run(start, bytes@.take(i as int)).0,
                out.audio@ == icy_run(start, bytes@.take(i as int)).1,
                titles_view(out.titles@) == icy_run(start, bytes@.take(i as int)).2,
            decreases bytes.len() - i,
        {
            assert(bytes@.take(i + 1).drop_last() =~= bytes@.take(i as int));
            assert(bytes@.take(i + 1).last() == bytes@[i as int]);
            self.step(bytes[i], &mut out);
            i += 1;
        }
        assert(bytes@.take(bytes.len() as int) =~= bytes@);
        out
    }

    /// Whether the stream may end here: not inside a metadata block, nor
    /// where one is due.
    pub fn check_end(&self) -> (r: Result<(), String>)
        ensures
            (self@.in_body || self@.until_meta == 0) ==> (r matches Err(m) && m@
                == "stream ended inside ICY metadata block"@),
            !(self@.in_body || self@.until_meta == 0) ==> r is Ok,
    {
        if self.in_body || self.until_meta == 0 {
            Err(crate::text::string_from_str("stream ended inside ICY metadata block"))
        } else {
            Ok(())
        }
    }
}

/// How the stream is split into pieces does not matter: running over two
/// pieces one after the other gives what running over both at once gives.
pub proof fn lemma_split_invariant(s: IcyView, a: Seq<u8>, b: Seq<u8>)
    ensures
        icy_run(icy_run(s, a).0, b).0 == icy_run(s, a + b).0,
        icy_run(s, a).1 + icy_run(icy_run(s, a).0, b).1 == icy_run(s, a + b).1,
        icy_run(s, a).2 + icy_run(icy_run(s, a).0, b).2 == icy_run(s, a + b).2,
    decreases b.len(),
{
    if b.len() == 0 {
        assert(a + b =~= a);
        assert(icy_run(s, a).1 + Seq::<u8>::empty() =~= icy_run(s, a).1);
        assert(icy_run(s, a).2 + Seq::<Seq<char>>::empty() =~= icy_run(s, a).2);
    } else {
        lemma_split_invariant(s, a, b.drop_last());
        assert((a + b).drop_last() =~= a + b.drop_last());
        assert((a + b).last() == b.last());
        let r1 = icy_run(icy_run(s, a).0, b.drop_last());
        let st = icy_step(r1.0, b.last());
        assert(icy_run(s, a).1 + (r1.1 + st.1) =~= (icy_run(s, a).1 + r1.1) + st.1);
        assert(icy_run(s, a).2 + (r1.2 + st.2) =~= (icy_run(s, a).2 + r1.2) + st.2);
    }
}

/// A metadata block as a server sends it: a length byte `n`, then `16 * n`
/// bytes of text.
pub open spec fn is_metadata_block(block: Seq<u8>) -> bool {
    block.len() >= 1 && block.len() == 1 + 16 * (block[0] as int)
}

/// The stream a server sends: each audio chunk followed by its metadata
/// block.
pub open spec fn icy_stream(segments: Seq<(Seq<u8>, Seq<u8>)>) -> Seq<u8>
    decreases segments.len(),
{
    if segments.len() == 0 {
        Seq::empty()
    } else {
        icy_stream(segments.drop_last()) + segments.last().0 + segments.last().1
    }
}

/// The audio of those segments: their chunks, in order.
pub open spec fn icy_audio(segments: Seq<(Seq<u8>, Seq<u8>)>) -> Seq<u8>
    decreases segments.len(),
{
    if segments.len() == 0 {
        Seq::empty()
    } else {
        icy_audio(segments.drop_last()) + segments.last().0
    }
}

/// What a finished block does to the titles: a title that differs from
/// the remembered one is reported and remembered; anything else changes
/// nothing.
pub open spec fn title_report(last: Option<Seq<char>>, title: Option<Seq<char>>) -> (Option<Seq<char>>, Seq<Seq<char>>) {
    match title {
        Some(t) => if last != Some(t) { (Some(t), seq![t]) } else { (last, Seq::empty()) },
        None => (last, Seq::empty()),
    }
}

/// The stream title a metadata block carries: none for an empty block.
pub open spec fn segment_title(block: Seq<u8>) -> Option<Seq<char>> {
    if block[0] == 0 {
        None
    } else {
        block_title(block.skip(1))
    }
}

/// The last title among `titles`, or `last` where they hold none.
pub open spec fn last_seen(last: Option<Seq<char>>, titles: Seq<Option<Seq<char>>>) -> Option<Seq<char>>
    decreases titles.len(),
{
    if titles.len() == 0 {
        last
    } else {
        match titles.last() {
            Some(t) => Some(t),
            None => last_seen(last, titles.drop_last()),
        }
    }
}

/// The titles of a run of blocks with repeats removed: a block's title
/// counts when it differs from the last title seen before it.
pub open spec fn title_changes(last: Option<Seq<char>>, titles: Seq<Option<Seq<char>>>) -> Seq<Seq<char>>
    decreases titles.len(),
{
    if titles.len() == 0 {
        Seq::empty()
    } else {
        let before = title_changes(last, titles.drop_last());
        match titles.last() {
            Some(t) => if last_seen(last, titles.drop_last()) != Some(t) { before.push(t) } else { before },
            None => before,
        }
    }
}

/// The titles carried by the blocks of the segments, in order.
pub open spec fn segment_titles(segments: Seq<(Seq<u8>, Seq<u8>)>) -> Seq<Option<Seq<char>>> {
    segments.map_values(|seg: (Seq<u8>, Seq<u8>)| segment_title(seg.1))
}

/// Audio bytes before a block is due pass through unchanged.
proof fn lemma_audio_passes(s: IcyView, chunk: Seq<u8>)
    requires
        !s.in_body,
        chunk.len() <= s.until_meta,
    ensures
        icy_run(s, chunk).1 == chunk,
        icy_run(s, chunk).2.len() == 0,
        icy_run(s, chunk).0.last_title == s.last_title,
        !icy_run(s, chunk).0.in_body,
        icy_run(s, chunk).0.until_meta == s.until_meta - chunk.len(),
        icy_run(s, chunk).0.metaint == s.metaint,
    decreases chunk.len(),
{
    if chunk.len() > 0 {
        lemma_audio_passes(s, chunk.drop_last());
        assert(icy_run(s, chunk.drop_last()).1.push(chunk.last()) =~= chunk);
        assert(icy_run(s, chunk.drop_last()).1 + seq![chunk.last()] =~= icy_run(s, chunk.drop_last()).1.push(chunk.last()));
    } else {
        assert(chunk =~= Seq::<u8>::empty());
    }
}

/// The text of a block gives no audio; after its last byte the next chunk
/// is due.
proof fn lemma_block_text_is_dropped(s: IcyView, text: Seq<u8>)
    requires
        s.in_body,
        text.len() <= s.body_left,
        s.body_left >= 1,
    ensures
        icy_run(s, text).1.len() == 0,
        icy_run(s, text).0.metaint == s.metaint,
        text.len() < s.body_left ==> icy_run(s, text).0.in_body
            && icy_run(s, text).0.body_left == s.body_left - text.len()
            && icy_run(s, text).0.body == s.body + text
            && icy_run(s, text).0.last_title == s.last_title
            && icy_run(s, text).2.len() == 0,
        text.len() == s.body_left ==> !icy_run(s, text).0.in_body
            && icy_run(s, text).0.until_meta == s.metaint
            && (icy_run(s, text).0.last_title, icy_run(s, text).2) == title_report(
                s.last_title,
                block_title(s.body + text),
            ),
    decreases text.len(),
{
    if text.len() > 0 {
        lemma_block_text_is_dropped(s, text.drop_last());
        let prev = icy_run(s, text.drop_last());
        assert(prev.0.body.push(text.last()) =~= s.body + text);
        assert(prev.2 + icy_step(prev.0, text.last()).2 =~= icy_step(prev.0, text.last()).2);
    } else {
        assert(s.body + text =~= s.body);
    }
}

/// A whole metadata block gives no audio and leaves the demultiplexer at
/// the start of the next chunk.
proof fn lemma_block_is_dropped(s: IcyView, block: Seq<u8>)
    requires
        !s.in_body,
        s.until_meta == 0,
        is_metadata_block(block),
    ensures
        icy_run(s, block).1.len() == 0,
        !icy_run(s, block).0.in_body,
        icy_run(s, block).0.until_meta == s.metaint,
        icy_run(s, block).0.metaint == s.metaint,
        (icy_run(s, block).0.last_title, icy_run(s, block).2) == title_report(s.last_title, segment_title(block)),
{
    let head = block.take(1);
    let text = block.skip(1);
    assert(block =~= head + text);
    lemma_split_invariant(s, head, text);
    assert(head.drop_last() =~= Seq::<u8>::empty());
    assert(head.last() == block[0]);
    assert(icy_run(s, head.drop_last()) == (s, Seq::<u8>::empty(), Seq::<Seq<char>>::empty()));
    let st = icy_step(s, block[0]);
    assert(icy_run(s, head).0 == st.0);
    assert(icy_run(s, head).1 =~= Seq::<u8>::empty() + st.1);
    let s1 = icy_run(s, head).0;
    assert(icy_run(s, head).2 =~= Seq::<Seq<char>>::empty() + st.2);
    if block[0] == 0 {
        assert(text =~= Seq::<u8>::empty());
        assert(icy_run(s, block).2 =~= icy_run(s, head).2 + Seq::<Seq<char>>::empty());
    } else {
        lemma_block_text_is_dropped(s1, text);
        assert(s1.body + text =~= text);
        assert(icy_run(s, block).2 =~= Seq::<Seq<char>>::empty() + icy_run(s1, text).2);
    }
}

/// Metadata never reaches the audio: for a stream of chunks of `metaint`
/// audio bytes, each followed by a metadata block, and a last chunk cut
/// short anywhere, the demultiplexer gives exactly the audio bytes.
pub proof fn lemma_metadata_never_leaks(s: IcyView, segments: Seq<(Seq<u8>, Seq<u8>)>, tail: Seq<u8>)
    requires
        !s.in_body,
        s.until_meta == s.metaint,
        forall|i: int| 0 <= i < segments.len() ==> (#[trigger] segments[i]).0.len() == s.metaint
            && is_metadata_block(segments[i].1),
        tail.len() <= s.metaint,
    ensures
        icy_run(s, icy_stream(segments) + tail).1 == icy_audio(segments) + tail,
    decreases segments.len(),
{
    lemma_segments_run(s, segments);
    let after = icy_run(s, icy_stream(segments)).0;
    lemma_split_invariant(s, icy_stream(segments), tail);
    lemma_audio_passes(after, tail);
}

proof fn lemma_segments_run(s: IcyView, segments: Seq<(Seq<u8>, Seq<u8>)>)
    requires
        !s.in_body,
        s.until_meta == s.metaint,
        forall|i: int| 0 <= i < segments.len() ==> (#[trigger] segments[i]).0.len() == s.metaint
            && is_metadata_block(segments[i].1),
    ensures
        icy_run(s, icy_stream(segments)).1 == icy_audio(segments),
        !icy_run(s, icy_stream(segments)).0.in_body,
        icy_run(s, icy_stream(segments)).0.until_meta == s.metaint,
        icy_run(s, icy_stream(segments)).0.metaint == s.metaint,
        icy_run(s, icy_stream(segments)).2 == title_changes(s.last_title, segment_titles(segments)),
        icy_run(s, icy_stream(segments)).0.last_title == last_seen(s.last_title, segment_titles(segments)),
    decreases segments.len(),
{
    if segments.len() == 0 {
        assert(icy_stream(segments) =~= Seq::<u8>::empty());
        assert(icy_audio(segments) =~= Seq::<u8>::empty());
        assert(segment_titles(segments) =~= Seq::<Option<Seq<char>>>::empty());
    } else {
        let init = segments.drop_last();
        let (chunk, block) = segments.last();
        assert forall|i: int| 0 <= i < init.len() implies (#[trigger] init[i]).0.len() == s.metaint
            && is_metadata_block(init[i].1) by {
            assert(init[i] == segments[i]);
        }
        assert(segments[segments.len() - 1] == segments.last());
        lemma_segments_run(s, init);
        let prefix = icy_stream(init);
        let s1 = icy_run(s, prefix).0;
        lemma_audio_passes(s1, chunk);
        let s2 = icy_run(s1, chunk).0;
        lemma_block_is_dropped(s2, block);
        lemma_split_invariant(s1, chunk, block);
        lemma_split_invariant(s, prefix, chunk + block);
        assert(icy_stream(segments) =~= prefix + (chunk + block));
        assert(icy_run(s1, chunk).1 + icy_run(s2, block).1 =~= chunk);
        let ts = segment_titles(segments);
        assert(ts.drop_last() =~= segment_titles(init));
        assert(ts.last() == segment_title(block));
        assert(icy_run(s1, chunk).2 + icy_run(s2, block).2 =~= icy_run(s2, block).2);
        let tp = icy_run(s, prefix).2;
        match segment_title(block) {
            Some(t) => {
                if last_seen(s.last_title, segment_titles(init)) != Some(t) {
                    assert(tp + seq![t] =~= tp.push(t));
                } else {
                    assert(tp + Seq::<Seq<char>>::empty() =~= tp);
                }
            },
            None => {
                assert(tp + Seq::<Seq<char>>::empty() =~= tp);
            },
        }
    }
}

/// Each change of title is reported once: over a stream of chunks of
/// `metaint` audio bytes, each followed by a metadata block, and a last
/// chunk cut short anywhere, the titles reported are the titles the blocks
/// carry with repeats removed (a title is reported when it differs from
/// the last title seen before it, starting from the remembered one), and
/// afterwards the last title carried is the one remembered.
pub proof fn lemma_title_changes_reported_once(s: IcyView, segments: Seq<(Seq<u8>, Seq<u8>)>, tail: Seq<u8>)
    requires
        !s.in_body,
        s.until_meta == s.metaint,
        forall|i: int| 0 <= i < segments.len() ==> (#[trigger] segments[i]).0.len() == s.metaint
            && is_metadata_block(segments[i].1),
        tail.len() <= s.metaint,
    ensures
        icy_run(s, icy_stream(segments) + tail).2 == title_changes(s.last_title, segment_titles(segments)),
        icy_run(s, icy_stream(segments) + tail).0.last_title == last_seen(s.last_title, segment_titles(segments)),
{
    lemma_segments_run(s, segments);
    let after = icy_run(s, icy_stream(segments)).0;
    lemma_split_invariant(s, icy_stream(segments), tail);
    lemma_audio_passes(after, tail);
    assert(icy_run(s, icy_stream(segments)).2 + icy_run(after, tail).2 =~= icy_run(s, icy_stream(segments)).2);
}


/// A byte reports at most one title. A title is reported only when it
/// differs from the remembered one, and is then remembered; a byte that
/// reports nothing leaves the remembered title as it was.
pub proof fn lemma_step_remembers_title(s: IcyView, b: u8)
    ensures
        icy_step(s, b).2.len() <= 1,
        icy_step(s, b).2.len() == 1 ==> s.last_title != Some(icy_step(s, b).2[0])
            && icy_step(s, b).0.last_title == Some(icy_step(s, b).2[0]),
        icy_step(s, b).2.len() == 0 ==> icy_step(s, b).0.last_title == s.last_title,
{
}

/// Over any run of bytes, no title is reported twice in a row: each
/// reported title differs from the one before it (the first from the title
/// remembered at the start), and afterwards the last title reported is the
/// one remembered.
pub proof fn lemma_titles_change_each_time(s: IcyView, bytes: Seq<u8>)
    ensures
        ({
            let (after, _, titles) = icy_run(s, bytes);
            &&& forall|i: int| 0 <= i < titles.len() - 1 ==> titles[i] != #[trigger] titles[i + 1]
            &&& titles.len() > 0 ==> s.last_title != Some(titles[0]) && after.last_title == Some(titles.last())
            &&& titles.len() == 0 ==> after.last_title == s.last_title
        }),
    decreases bytes.len(),
{
    if bytes.len() > 0 {
        let (s1, a1, t1) = icy_run(s, bytes.drop_last());
        lemma_titles_change_each_time(s, bytes.drop_last());
        lemma_step_remembers_title(s1, bytes.last());
        let t2 = icy_step(s1, bytes.last()).2;
        let titles = t1 + t2;
        assert(icy_run(s, bytes).2 == titles);
        if t2.len() == 1 {
            assert(titles.last() == t2[0]);
            if t1.len() > 0 {
                assert(titles[0] == t1[0]);
            } else {
                assert(titles[0] == t2[0]);
            }
            assert forall|i: int| 0 <= i < titles.len() - 1 implies titles[i] != #[trigger] titles[i + 1] by {
                if i < t1.len() - 1 {
                    assert(titles[i] == t1[i] && titles[i + 1] == t1[i + 1]);
                } else {
                    assert(i == t1.len() - 1);
                    assert(titles[i] == t1.last());
                    assert(titles[i + 1] == t2[0]);
                }
            }
        } else {
            assert(titles =~= t1);
        }
    }
}

} // verus!
