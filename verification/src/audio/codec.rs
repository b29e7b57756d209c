//! Conservative codec classification for live radio streams.
//!
//! Header and URL hints are frequently wrong in public station directories,
//! so magic bytes take priority over the `Content-Type` header, which takes
//! priority over the URL's file extension.

use vstd::prelude::*;
use crate::text::{
    ascii_lower, chars_ascii_lower, ends_with, ends_with_chars, str_chars, str_eq_chars, trim,
    trim_chars, trim_end_char, trim_end_char_exec,
};

verus! {

#[derive(Debug, Clone, Copy, PartialEq, Eq, Structural)]
pub enum CodecHint {
    Mp3,
    Aac,
    OggVorbis,
    Opus,
    Ogg,
    Flac,
    Wav,
    Unknown,
}

pub open spec fn hint_label(h: CodecHint) -> Seq<char> {
    match h {
        CodecHint::Mp3 => "MP3"@,
        CodecHint::Aac => "AAC"@,
        CodecHint::OggVorbis => "Ogg Vorbis"@,
        CodecHint::Opus => "Opus"@,
        CodecHint::Ogg => "Ogg"@,
        CodecHint::Flac => "FLAC"@,
        CodecHint::Wav => "WAV"@,
        CodecHint::Unknown => "Auto-detected"@,
    }
}

impl CodecHint {
    pub fn label(self) -> (r: &'static str)
        ensures
            r@ == hint_label(self),
    {
        match self {
            CodecHint::Mp3 => "MP3",
            CodecHint::Aac => "AAC",
            CodecHint::OggVorbis => "Ogg Vorbis",
            CodecHint::Opus => "Opus",
            CodecHint::Ogg => "Ogg",
            CodecHint::Flac => "FLAC",
            CodecHint::Wav => "WAV",
            CodecHint::Unknown => "Auto-detected",
        }
    }
}

#[derive(Debug, Clone, Copy, PartialEq, Eq, Structural)]
pub enum CodecSource {
    MagicBytes,
    ContentType,
    UrlExtension,
    Unknown,
}

#[derive(Debug, Clone, Copy, PartialEq, Eq, Structural)]
pub struct CodecDetection {
    pub hint: CodecHint,
    pub source: CodecSource,
}

impl CodecDetection {
    /// MP3 confirmed by the stream's own bytes.
    pub fn verified_mp3(self) -> (b: bool)
        ensures
            b == (self.hint == CodecHint::Mp3 && self.source == CodecSource::MagicBytes),
    {
        self.hint == CodecHint::Mp3 && self.source == CodecSource::MagicBytes
    }
}

// ---------------------------------------------------------------------------
// Byte-level specifications
// ---------------------------------------------------------------------------

pub open spec fn bytes_start_with(b: Seq<u8>, p: Seq<u8>) -> bool {
    p.len() <= b.len() && b.take(p.len() as int) == p
}

pub open spec fn bytes_occur_at(hay: Seq<u8>, needle: Seq<u8>, i: int) -> bool {
    0 <= i && i + needle.len() <= hay.len() && hay.subrange(i, i + needle.len()) == needle
}

/// A non-empty `needle` occurs somewhere in `hay`.
pub open spec fn bytes_contain(hay: Seq<u8>, needle: Seq<u8>) -> bool {
    needle.len() > 0 && exists|i: int| bytes_occur_at(hay, needle, i)
}

pub open spec fn flac_magic() -> Seq<u8> {
    seq![0x66u8, 0x4C, 0x61, 0x43]
}

pub open spec fn riff_magic() -> Seq<u8> {
    seq![0x52u8, 0x49, 0x46, 0x46]
}

pub open spec fn wave_magic() -> Seq<u8> {
    seq![0x57u8, 0x41, 0x56, 0x45]
}

pub open spec fn ogg_magic() -> Seq<u8> {
    seq![0x4Fu8, 0x67, 0x67, 0x53]
}

pub open spec fn opus_head() -> Seq<u8> {
    seq![0x4Fu8, 0x70, 0x75, 0x73, 0x48, 0x65, 0x61, 0x64]
}

pub open spec fn vorbis_head() -> Seq<u8> {
    seq![0x01u8, 0x76, 0x6F, 0x72, 0x62, 0x69, 0x73]
}

pub open spec fn id3_magic() -> Seq<u8> {
    seq![0x49u8, 0x44, 0x33]
}

/// ADTS AAC sync: `0xFFF` with layer bits `00`.
pub open spec fn is_adts_sync(first: u8, second: u8) -> bool {
    first == 0xFF && (second & 0xF6) == 0xF0
}

/// MPEG audio frame sync with non-reserved version and layer fields.
pub open spec fn is_mpeg_sync(first: u8, second: u8) -> bool {
    first == 0xFF && (second & 0xE0) == 0xE0 && ((second >> 3u8) & 0x03) != 0x01 && ((second
        >> 1u8) & 0x03) != 0x00
}

/// The codec that the leading bytes of a stream identify, if any.
pub open spec fn magic_hint(b: Seq<u8>) -> Option<CodecHint> {
    if bytes_start_with(b, flac_magic()) {
        Some(CodecHint::Flac)
    } else if b.len() >= 12 && bytes_start_with(b, riff_magic()) && b.subrange(8, 12)
        == wave_magic() {
        Some(CodecHint::Wav)
    } else if bytes_start_with(b, ogg_magic()) {
        let probe = b.take(if b.len() < 128 { b.len() as int } else { 128 });
        if bytes_contain(probe, opus_head()) {
            Some(CodecHint::Opus)
        } else if bytes_contain(probe, vorbis_head()) {
            Some(CodecHint::OggVorbis)
        } else {
            Some(CodecHint::Ogg)
        }
    } else if bytes_start_with(b, id3_magic()) {
        Some(CodecHint::Mp3)
    } else if b.len() >= 2 && is_adts_sync(b[0], b[1]) {
        Some(CodecHint::Aac)
    } else if b.len() >= 2 && is_mpeg_sync(b[0], b[1]) {
        Some(CodecHint::Mp3)
    } else {
        None
    }
}

// ---------------------------------------------------------------------------
// Text-level specifications
// ---------------------------------------------------------------------------

/// The part of `s` before the first character satisfying `is_sep`.
pub open spec fn before_first(s: Seq<char>, is_sep: spec_fn(char) -> bool) -> Seq<char>
    decreases s.len(),
{
    if s.len() == 0 || is_sep(s[0]) {
        Seq::empty()
    } else {
        seq![s[0]] + before_first(s.drop_first(), is_sep)
    }
}

/// The media type of a `Content-Type` value: what stands before any `;`,
/// trimmed and in ASCII lowercase.
pub open spec fn media_type(content_type: Seq<char>) -> Seq<char> {
    ascii_lower(trim(before_first(content_type, |c: char| c == ';')))
}

pub open spec fn content_type_hint(content_type: Seq<char>) -> Option<CodecHint> {
    let m = media_type(content_type);
    if m == "audio/mpeg"@ || m == "audio/mp3"@ || m == "audio/x-mpeg"@ {
        Some(CodecHint::Mp3)
    } else if m == "audio/aac"@ || m == "audio/aacp"@ || m == "audio/x-aac"@ || m
        == "audio/vnd.dlna.adts"@ {
        Some(CodecHint::Aac)
    } else if m == "audio/opus"@ {
        Some(CodecHint::Opus)
    } else if m == "audio/ogg"@ || m == "application/ogg"@ {
        Some(CodecHint::Ogg)
    } else if m == "audio/flac"@ || m == "audio/x-flac"@ {
        Some(CodecHint::Flac)
    } else if m == "audio/wav"@ || m == "audio/wave"@ || m == "audio/x-wav"@ {
        Some(CodecHint::Wav)
    } else {
        None
    }
}

/// The path of a URL for extension matching: what stands before any `?` or
/// `#`, without trailing `/`, in ASCII lowercase.
pub open spec fn url_path(url: Seq<char>) -> Seq<char> {
    ascii_lower(trim_end_char(before_first(url, |c: char| c == '?' || c == '#'), '/'))
}

pub open spec fn url_hint(url: Seq<char>) -> Option<CodecHint> {
    let p = url_path(url);
    if ends_with(p, ".mp3"@) {
        Some(CodecHint::Mp3)
    } else if ends_with(p, ".aac"@) || ends_with(p, ".aacp"@) || ends_with(p, ".adts"@) {
        Some(CodecHint::Aac)
    } else if ends_with(p, ".opus"@) {
        Some(CodecHint::Opus)
    } else if ends_with(p, ".ogg"@) || ends_with(p, ".oga"@) {
        Some(CodecHint::Ogg)
    } else if ends_with(p, ".flac"@) {
        Some(CodecHint::Flac)
    } else if ends_with(p, ".wav"@) || ends_with(p, ".wave"@) {
        Some(CodecHint::Wav)
    } else {
        None
    }
}

/// Magic bytes first, then the content type, then the URL extension.
pub open spec fn detection_of(
    prebuffer: Seq<u8>,
    content_type: Seq<char>,
    url: Seq<char>,
) -> CodecDetection {
    match magic_hint(prebuffer) {
        Some(h) => CodecDetection { hint: h, source: CodecSource::MagicBytes },
        None => match content_type_hint(content_type) {
            Some(h) => CodecDetection { hint: h, source: CodecSource::ContentType },
            None => match url_hint(url) {
                Some(h) => CodecDetection { hint: h, source: CodecSource::UrlExtension },
                None => CodecDetection { hint: CodecHint::Unknown, source: CodecSource::Unknown },
            },
        },
    }
}

// ---------------------------------------------------------------------------
// Executable code
// ---------------------------------------------------------------------------

pub fn detect_codec(prebuffer: &[u8], content_type: &str, final_url: &str) -> (d: CodecDetection)
    ensures
        d == detection_of(prebuffer@, content_type@, final_url@),
{
    if let Some(hint) = codec_from_magic(prebuffer) {
        return CodecDetection { hint, source: CodecSource::MagicBytes };
    }
    if let Some(hint) = codec_from_content_type(content_type) {
        return CodecDetection { hint, source: CodecSource::ContentType };
    }
    if let Some(hint) = codec_from_url(final_url) {
        return CodecDetection { hint, source: CodecSource::UrlExtension };
    }
    CodecDetection { hint: CodecHint::Unknown, source: CodecSource::Unknown }
}

fn bytes_start_with_exec(b: &[u8], p: &[u8]) -> (r: bool)
    ensures
        r == bytes_start_with(b@, p@),
{
    if p.len() > b.len() {
        return false;
    }
    let mut i: usize = 0;
    while i < p.len()
        invariant
            i <= p.len() <= b.len(),
            b@.take(i as int) == p@.take(i as int),
        decreases p.len() - i,
    {
        if b[i] != p[i] {
            assert(b@.take(p.len() as int)[i as int] != p@[i as int]);
            return false;
        }
        assert(b@.take(i + 1) =~= b@.take(i as int).push(b@[i as int]));
        assert(p@.take(i + 1) =~= p@.take(i as int).push(p@[i as int]));
        i += 1;
    }
    assert(p@.take(p.len() as int) =~= p@);
    true
}

fn bytes_occur_at_exec(hay: &[u8], needle: &[u8], i: usize) -> (r: bool)
    ensures
        r == bytes_occur_at(hay@, needle@, i as int),
{
    if i > hay.len() || needle.len() > hay.len() - i {
        return false;
    }
    let mut k: usize = 0;
    while k < needle.len()
        invariant
            k <= needle.len(),
            i + needle.len() <= hay.len(),
            hay@.subrange(i as int, i + k) == needle@.take(k as int),
        decreases needle.len() - k,
    {
        if hay[i + k] != needle[k] {
            assert(hay@.subrange(i as int, i + needle.len())[k as int] != needle@[k as int]);
            return false;
        }
        assert(hay@.subrange(i as int, i + k + 1) =~= hay@.subrange(i as int, i + k).push(
            hay@[i + k],
        ));
        assert(needle@.take(k + 1) =~= needle@.take(k as int).push(needle@[k as int]));
        k += 1;
    }
    assert(needle@.take(needle.len() as int) =~= needle@);
    true
}

/// Whether the non-empty `needle` occurs in the first `limit` bytes of `hay`.
fn contains_bytes(hay: &[u8], limit: usize, needle: &[u8]) -> (r: bool)
    requires
        limit <= hay.len(),
    ensures
        r == bytes_contain(hay@.take(limit as int), needle@),
{
    let ghost probe = hay@.take(limit as int);
    if needle.len() == 0 {
        return false;
    }
    if needle.len() > limit {
        assert forall|i: int| !bytes_occur_at(probe, needle@, i) by {}
        return false;
    }
    let mut i: usize = 0;
    let last = limit - needle.len();
    while i <= last
        invariant
            needle.len() <= limit <= hay.len(),
            last == limit - needle.len(),
            needle.len() > 0,
            i <= last + 1,
            probe == hay@.take(limit as int),
            forall|j: int| 0 <= j < i ==> !bytes_occur_at(probe, needle@, j),
        decreases limit - i,
    {
        let hit = bytes_occur_at_exec(hay, needle, i);
        assert(hay@.subrange(i as int, i + needle.len()) =~= probe.subrange(
            i as int,
            i + needle.len(),
        ));
        if hit {
            assert(bytes_occur_at(probe, needle@, i as int));
            return true;
        }
        i += 1;
    }
    assert forall|j: int| !bytes_occur_at(probe, needle@, j) by {
        if 0 <= j && j < i {
        }
    }
    false
}

pub fn codec_from_magic(bytes: &[u8]) -> (r: Option<CodecHint>)
    ensures
        r == magic_hint(bytes@),
{
    let flac: [u8; 4] = [0x66, 0x4C, 0x61, 0x43];
    let riff: [u8; 4] = [0x52, 0x49, 0x46, 0x46];
    let wave: [u8; 4] = [0x57, 0x41, 0x56, 0x45];
    let ogg: [u8; 4] = [0x4F, 0x67, 0x67, 0x53];
    let opus: [u8; 8] = [0x4F, 0x70, 0x75, 0x73, 0x48, 0x65, 0x61, 0x64];
    let vorbis: [u8; 7] = [0x01, 0x76, 0x6F, 0x72, 0x62, 0x69, 0x73];
    let id3: [u8; 3] = [0x49, 0x44, 0x33];
    assert(flac@ == flac_magic());
    assert(riff@ == riff_magic());
    assert(wave@ == wave_magic());
    assert(ogg@ == ogg_magic());
    assert(opus@ == opus_head());
    assert(vorbis@ == vorbis_head());
    assert(id3@ == id3_magic());
    if bytes_start_with_exec(bytes, flac.as_slice()) {
        return Some(CodecHint::Flac);
    }
    if bytes.len() >= 12 && bytes_start_with_exec(bytes, riff.as_slice()) && bytes_occur_at_exec(
        bytes,
        wave.as_slice(),
        8,
    ) {
        assert(bytes@.subrange(8, 12) == wave_magic());
        return Some(CodecHint::Wav);
    }
    proof {
        if bytes.len() >= 12 && bytes_start_with(bytes@, riff_magic()) {
            assert(!bytes_occur_at(bytes@, wave_magic(), 8));
        }
    }
    if bytes_start_with_exec(bytes, ogg.as_slice()) {
        let probe_len = if bytes.len() < 128 {
            bytes.len()
        } else {
            128
        };
        if contains_bytes(bytes, probe_len, opus.as_slice()) {
            return Some(CodecHint::Opus);
        }
        if contains_bytes(bytes, probe_len, vorbis.as_slice()) {
            return Some(CodecHint::OggVorbis);
        }
        return Some(CodecHint::Ogg);
    }
    if bytes_start_with_exec(bytes, id3.as_slice()) {
        return Some(CodecHint::Mp3);
    }
    if bytes.len() >= 2 {
        let first = bytes[0];
        let second = bytes[1];
        if first == 0xFF && (second & 0xF6) == 0xF0 {
            return Some(CodecHint::Aac);
        }
        let version = (second >> 3u8) & 0x03;
        let layer = (second >> 1u8) & 0x03;
        if first == 0xFF && (second & 0xE0) == 0xE0 && version != 0x01 && layer != 0x00 {
            return Some(CodecHint::Mp3);
        }
    }
    None
}

/// The characters of `v` before the first `sep`.
fn chars_before(v: &[char], sep1: char, sep2: char) -> (r: Vec<char>)
    ensures
        r@ == before_first(v@, |c: char| c == sep1 || c == sep2),
{
    let ghost is_sep = |c: char| c == sep1 || c == sep2;
    let mut r: Vec<char> = Vec::new();
    let mut i: usize = 0;
    assert(v@.skip(0) =~= v@);
    assert(r@ + before_first(v@, is_sep) =~= before_first(v@, is_sep));
    while i < v.len() && v[i] != sep1 && v[i] != sep2
        invariant
            i <= v.len(),
            is_sep == (|c: char| c == sep1 || c == sep2),
            r@ == v@.take(i as int),
            before_first(v@, is_sep) == r@ + before_first(v@.skip(i as int), is_sep),
        decreases v.len() - i,
    {
        assert(v@.skip(i as int).drop_first() =~= v@.skip(i + 1));
        assert(v@.take(i + 1) =~= v@.take(i as int).push(v@[i as int]));
        assert(r@.push(v@[i as int]) + before_first(v@.skip(i + 1), is_sep) =~= r@ + (seq![
            v@[i as int],
        ] + before_first(v@.skip(i + 1), is_sep)));
        r.push(v[i]);
        i += 1;
    }
    assert(before_first(v@.skip(i as int), is_sep) =~= Seq::<char>::empty());
    assert(r@ + Seq::<char>::empty() =~= r@);
    r
}

pub fn codec_from_content_type(content_type: &str) -> (r: Option<CodecHint>)
    ensures
        r == content_type_hint(content_type@),
{
    let chars = str_chars(content_type);
    let head = chars_before(chars.as_slice(), ';', ';');
    assert(before_first(content_type@, |c: char| c == ';' || c == ';') == before_first(
        content_type@,
        |c: char| c == ';',
    )) by {
        assert((|c: char| c == ';' || c == ';') =~= (|c: char| c == ';'));
    }
    let trimmed = trim_chars(head.as_slice());
    let m = chars_ascii_lower(trimmed.as_slice());
    let m = m.as_slice();
    if str_eq_chars("audio/mpeg", m) || str_eq_chars("audio/mp3", m) || str_eq_chars(
        "audio/x-mpeg",
        m,
    ) {
        Some(CodecHint::Mp3)
    } else if str_eq_chars("audio/aac", m) || str_eq_chars("audio/aacp", m) || str_eq_chars(
        "audio/x-aac",
        m,
    ) || str_eq_chars("audio/vnd.dlna.adts", m) {
        Some(CodecHint::Aac)
    } else if str_eq_chars("audio/opus", m) {
        Some(CodecHint::Opus)
    } else if str_eq_chars("audio/ogg", m) || str_eq_chars("application/ogg", m) {
        Some(CodecHint::Ogg)
    } else if str_eq_chars("audio/flac", m) || str_eq_chars("audio/x-flac", m) {
        Some(CodecHint::Flac)
    } else if str_eq_chars("audio/wav", m) || str_eq_chars("audio/wave", m) || str_eq_chars(
        "audio/x-wav",
        m,
    ) {
        Some(CodecHint::Wav)
    } else {
        None
    }
}

fn ends_with_str(s: &[char], suffix: &str) -> (r: bool)
    ensures
        r == ends_with(s@, suffix@),
{
    let p = str_chars(suffix);
    ends_with_chars(s, p.as_slice())
}

pub fn codec_from_url(url: &str) -> (r: Option<CodecHint>)
    ensures
        r == url_hint(url@),
{
    let chars = str_chars(url);
    let head = chars_before(chars.as_slice(), '?', '#');
    let stripped = trim_end_char_exec(head.as_slice(), '/');
    let p = chars_ascii_lower(stripped.as_slice());
    let p = p.as_slice();
    if ends_with_str(p, ".mp3") {
        Some(CodecHint::Mp3)
    } else if ends_with_str(p, ".aac") || ends_with_str(p, ".aacp") || ends_with_str(p, ".adts") {
        Some(CodecHint::Aac)
    } else if ends_with_str(p, ".opus") {
        Some(CodecHint::Opus)
    } else if ends_with_str(p, ".ogg") || ends_with_str(p, ".oga") {
        Some(CodecHint::Ogg)
    } else if ends_with_str(p, ".flac") {
        Some(CodecHint::Flac)
    } else if ends_with_str(p, ".wav") || ends_with_str(p, ".wave") {
        Some(CodecHint::Wav)
    } else {
        None
    }
}

} // verus!
