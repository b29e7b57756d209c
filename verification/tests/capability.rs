use pulsedeck::audio::capability::{codec_capability, is_codec_playback_supported, PlaybackCapability};

#[test]
fn mp3_aliases_are_supported() {
    for codec in ["MP3", "mp3", " audio/mpeg ", "mpeg", "AUDIO/MP3"] {
        assert_eq!(
            codec_capability(codec).capability,
            PlaybackCapability::Supported,
            "{codec} should be Supported"
        );
    }
}

#[test]
fn missing_codec_is_unknown_and_allowed_to_try() {
    let capability = codec_capability("   ");

    assert_eq!(capability.capability, PlaybackCapability::Unknown);
    assert!(is_codec_playback_supported(""));
    assert!(is_codec_playback_supported("   "));
}

#[test]
fn known_non_mp3_codecs_are_now_supported() {
    for codec in ["AAC", "aac+", "OGG", "Opus", "FLAC", "WAV"] {
        assert_eq!(
            codec_capability(codec).capability,
            PlaybackCapability::Supported,
            "{codec} should be Supported via Symphonia decoding"
        );
        assert!(is_codec_playback_supported(codec));
    }
}

#[test]
fn hls_remains_unsupported() {
    for codec in ["m3u8", "HLS", "APPLICATION/X-MPEGURL"] {
        assert_eq!(
            codec_capability(codec).capability,
            PlaybackCapability::Unsupported,
            "{codec} should remain Unsupported (requires segment fetcher)"
        );
        assert!(!is_codec_playback_supported(codec));
    }
}

#[test]
fn unknown_codec_is_not_blocked() {
    let capability = codec_capability("weird-radio-format");

    assert_eq!(capability.capability, PlaybackCapability::Unknown);
    assert!(is_codec_playback_supported("weird-radio-format"));
}

#[test]
fn he_aac_and_audio_aac_variants_are_supported() {
    for codec in ["HE-AAC", "AUDIO/AAC", "AUDIO/AACPLUS"] {
        assert_eq!(
            codec_capability(codec).capability,
            PlaybackCapability::Supported,
            "{codec} should be Supported"
        );
    }
}

#[test]
fn hls_variants_are_unsupported() {
    for codec in ["HLS", "M3U8", "APPLICATION/X-MPEGURL"] {
        assert_eq!(
            codec_capability(codec).capability,
            PlaybackCapability::Unsupported,
            "{codec} should be Unsupported"
        );
    }
}

#[test]
fn normalize_strips_whitespace_and_uppercases() {
    // mp3 with spaces should normalize to MP3
    assert_eq!(
        codec_capability("  mp3  ").capability,
        PlaybackCapability::Supported
    );
    // ogg/vorbis lowercase
    assert_eq!(
        codec_capability("ogg").capability,
        PlaybackCapability::Supported
    );
}

#[test]
fn codec_capability_reason_is_not_empty() {
    for codec in ["MP3", "AAC", "OGG", "OPUS", "FLAC", "HLS", "", "unknown"] {
        assert!(!codec_capability(codec).reason.is_empty());
    }
}

