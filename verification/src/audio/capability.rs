//! Codec capability policy: given a station's codec string, should playback
//! be attempted?
//!
//! MP3, AAC, OGG/Vorbis, Opus, FLAC and WAV are supported. HLS/M3U8 is
//! unsupported because it needs a playlist/segment fetcher. Missing or
//! unrecognised codec metadata is unknown, which still allows an attempt.

use vstd::prelude::*;
use crate::text::{ascii_upper, chars_ascii_upper, str_chars, str_eq_chars, trim, trim_chars};

verus! {

#[derive(Debug, Clone, Copy, PartialEq, Eq, Structural)]
pub enum PlaybackCapability {
    Supported,
    Unknown,
    Unsupported,
}

#[derive(Debug, Clone, Copy, PartialEq, Eq)]
pub struct CodecCapability {
    pub normalized_codec: &'static str,
    pub capability: PlaybackCapability,
    pub reason: &'static str,
}

/// `s` with every `from` replaced by `to`.
pub open spec fn replace_char(s: Seq<char>, from: char, to: char) -> Seq<char> {
    s.map_values(|c: char| if c == from { to } else { c })
}

/// `s` with every `c` removed.
pub open spec fn remove_char(s: Seq<char>, c: char) -> Seq<char>
    decreases s.len(),
{
    if s.len() == 0 {
        s
    } else if s.last() == c {
        remove_char(s.drop_last(), c)
    } else {
        remove_char(s.drop_last(), c).push(s.last())
    }
}

/// The lookup key of a codec string: trimmed, ASCII uppercase, `_` read as
/// `-`, spaces removed.
pub open spec fn playback_codec_key(codec: Seq<char>) -> Seq<char> {
    remove_char(replace_char(ascii_upper(trim(codec)), '_', '-'), ' ')
}

/// The policy for a codec key: normalised name, capability and reason.
pub open spec fn capability_of_key(k: Seq<char>) -> (Seq<char>, PlaybackCapability, Seq<char>) {
    if k.len() == 0 {
        (""@, PlaybackCapability::Unknown, "codec metadata is missing"@)
    } else if k == "MP3"@ || k == "MPEG"@ || k == "AUDIO/MPEG"@ || k == "AUDIO/MP3"@ {
        (
            "MP3"@,
            PlaybackCapability::Supported,
            "MP3 streams are supported via the MP3 fast-path decoder"@,
        )
    } else if k == "AAC"@ || k == "AAC+"@ || k == "HE-AAC"@ || k == "AUDIO/AAC"@ || k
        == "AUDIO/AACPLUS"@ {
        ("AAC"@, PlaybackCapability::Supported, "AAC streams are supported via Symphonia decoding"@)
    } else if k == "OGG"@ || k == "VORBIS"@ || k == "OGG/VORBIS"@ || k == "APPLICATION/OGG"@ {
        (
            "OGG"@,
            PlaybackCapability::Supported,
            "OGG/Vorbis streams are supported via Symphonia decoding"@,
        )
    } else if k == "OPUS"@ || k == "AUDIO/OPUS"@ {
        (
            "OPUS"@,
            PlaybackCapability::Supported,
            "Opus streams are supported via Symphonia decoding"@,
        )
    } else if k == "FLAC"@ || k == "AUDIO/FLAC"@ {
        (
            "FLAC"@,
            PlaybackCapability::Supported,
            "FLAC streams are supported via Symphonia decoding"@,
        )
    } else if k == "HLS"@ || k == "M3U8"@ || k == "APPLICATION/X-MPEGURL"@ {
        (
            "HLS"@,
            PlaybackCapability::Unsupported,
            "HLS playlists require a segment fetcher, not yet supported"@,
        )
    } else if k == "WAV"@ || k == "AUDIO/WAV"@ || k == "AUDIO/X-WAV"@ {
        ("WAV"@, PlaybackCapability::Supported, "WAV streams are supported via Symphonia decoding"@)
    } else {
        ("UNKNOWN"@, PlaybackCapability::Unknown, "codec metadata is not recognized"@)
    }
}

/// The capability policy for a raw codec string.
pub fn codec_capability(codec: &str) -> (r: CodecCapability)
    ensures
        (r.normalized_codec@, r.capability, r.reason@) == capability_of_key(
            playback_codec_key(codec@),
        ),
{
    let key = normalize_playback_codec(codec);
    let k = key.as_slice();
    if k.len() == 0 {
        CodecCapability {
            normalized_codec: "",
            capability: PlaybackCapability::Unknown,
            reason: "codec metadata is missing",
        }
    } else if str_eq_chars("MP3", k) || str_eq_chars("MPEG", k) || str_eq_chars("AUDIO/MPEG", k)
        || str_eq_chars("AUDIO/MP3", k) {
        CodecCapability {
            normalized_codec: "MP3",
            capability: PlaybackCapability::Supported,
            reason: "MP3 streams are supported via the MP3 fast-path decoder",
        }
    } else if str_eq_chars("AAC", k) || str_eq_chars("AAC+", k) || str_eq_chars("HE-AAC", k)
        || str_eq_chars("AUDIO/AAC", k) || str_eq_chars("AUDIO/AACPLUS", k) {
        CodecCapability {
            normalized_codec: "AAC",
            capability: PlaybackCapability::Supported,
            reason: "AAC streams are supported via Symphonia decoding",
        }
    } else if str_eq_chars("OGG", k) || str_eq_chars("VORBIS", k) || str_eq_chars("OGG/VORBIS", k)
        || str_eq_chars("APPLICATION/OGG", k) {
        CodecCapability {
            normalized_codec: "OGG",
            capability: PlaybackCapability::Supported,
            reason: "OGG/Vorbis streams are supported via Symphonia decoding",
        }
    } else if str_eq_chars("OPUS", k) || str_eq_chars("AUDIO/OPUS", k) {
        CodecCapability {
            normalized_codec: "OPUS",
            capability: PlaybackCapability::Supported,
            reason: "Opus streams are supported via Symphonia decoding",
        }
    } else if str_eq_chars("FLAC", k) || str_eq_chars("AUDIO/FLAC", k) {
        CodecCapability {
            normalized_codec: "FLAC",
            capability: PlaybackCapability::Supported,
            reason: "FLAC streams are supported via Symphonia decoding",
        }
    } else if str_eq_chars("HLS", k) || str_eq_chars("M3U8", k) || str_eq_chars(
        "APPLICATION/X-MPEGURL",
        k,
    ) {
        CodecCapability {
            normalized_codec: "HLS",
            capability: PlaybackCapability::Unsupported,
            reason: "HLS playlists require a segment fetcher, not yet supported",
        }
    } else if str_eq_chars("WAV", k) || str_eq_chars("AUDIO/WAV", k) || str_eq_chars(
        "AUDIO/X-WAV",
        k,
    ) {
        CodecCapability {
            normalized_codec: "WAV",
            capability: PlaybackCapability::Supported,
            reason: "WAV streams are supported via Symphonia decoding",
        }
    } else {
        CodecCapability {
            normalized_codec: "UNKNOWN",
            capability: PlaybackCapability::Unknown,
            reason: "codec metadata is not recognized",
        }
    }
}

/// Whether playback may be attempted: everything but an unsupported codec.
pub fn is_codec_playback_supported(codec: &str) -> (b: bool)
    ensures
        b == (capability_of_key(playback_codec_key(codec@)).1
            != PlaybackCapability::Unsupported),
{
    match codec_capability(codec).capability {
        PlaybackCapability::Unsupported => false,
        _ => true,
    }
}

/// The lookup key of a codec string.
pub fn normalize_playback_codec(codec: &str) -> (r: Vec<char>)
    ensures
        r@ == playback_codec_key(codec@),
{
    let t = str_trim_upper(codec);
    let mut r: Vec<char> = Vec::new();
    let mut i: usize = 0;
    let ghost rep = replace_char(t@, '_', '-');
    while i < t.len()
        invariant
            i <= t.len(),
            rep == replace_char(t@, '_', '-'),
            r@ == remove_char(rep.take(i as int), ' '),
        decreases t.len() - i,
    {
        let c = if t[i] == '_' {
            '-'
        } else {
            t[i]
        };
        assert(rep.take(i + 1).drop_last() =~= rep.take(i as int));
        if c != ' ' {
            r.push(c);
        }
        i += 1;
    }
    assert(rep.take(t.len() as int) =~= rep);
    r
}

fn str_trim_upper(s: &str) -> (r: Vec<char>)
    ensures
        r@ == ascii_upper(trim(s@)),
{
    let chars = str_chars(s);
    let t = trim_chars(chars.as_slice());
    chars_ascii_upper(t.as_slice())
}

} // verus!
