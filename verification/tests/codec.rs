use pulsedeck::audio::codec::{
    codec_from_content_type, codec_from_magic, codec_from_url, detect_codec, CodecHint, CodecSource,
};

#[test]
fn magic_bytes_override_wrong_mp3_content_type_and_url() {
    let aac = [0xFF, 0xF1, 0x50, 0x80];
    let detection = detect_codec(&aac, "audio/mpeg", "https://radio.test/live.mp3");

    assert_eq!(detection.hint, CodecHint::Aac);
    assert_eq!(detection.source, CodecSource::MagicBytes);
    assert!(!detection.verified_mp3());
}

#[test]
fn adts_aac_is_not_misclassified_as_mp3() {
    for second in [0xF1, 0xF9] {
        assert_eq!(
            codec_from_magic(&[0xFF, second, 0x50]),
            Some(CodecHint::Aac)
        );
    }
}

#[test]
fn mp3_frame_and_id3_are_detected() {
    assert_eq!(codec_from_magic(b"ID3\x04\x00"), Some(CodecHint::Mp3));
    assert_eq!(codec_from_magic(&[0xFF, 0xFB, 0x90]), Some(CodecHint::Mp3));
}

#[test]
fn verified_mp3_requires_magic_bytes() {
    let header = detect_codec(&[], "audio/mpeg", "https://radio.test/live");
    let url = detect_codec(&[], "", "https://radio.test/live.mp3");
    let magic = detect_codec(&[0xFF, 0xFB, 0x90], "", "https://radio.test/live");

    assert!(!header.verified_mp3());
    assert!(!url.verified_mp3());
    assert!(magic.verified_mp3());
}

#[test]
fn opus_and_vorbis_are_distinguished_inside_ogg() {
    let mut opus = b"OggS".to_vec();
    opus.extend_from_slice(b"padding OpusHead padding");
    let mut vorbis = b"OggS".to_vec();
    vorbis.extend_from_slice(b"padding \x01vorbis padding");

    assert_eq!(codec_from_magic(&opus), Some(CodecHint::Opus));
    assert_eq!(codec_from_magic(&vorbis), Some(CodecHint::OggVorbis));
    assert_eq!(codec_from_magic(b"OggSunknown"), Some(CodecHint::Ogg));
}

#[test]
fn flac_and_wav_magic_are_detected() {
    assert_eq!(codec_from_magic(b"fLaCmore"), Some(CodecHint::Flac));
    assert_eq!(codec_from_magic(b"RIFF1234WAVEfmt "), Some(CodecHint::Wav));
}

#[test]
fn content_type_parameters_and_case_are_ignored() {
    assert_eq!(
        codec_from_content_type(" Audio/AAC; charset=binary "),
        Some(CodecHint::Aac)
    );
    assert_eq!(
        codec_from_content_type("audio/mpeg; bitrate=128"),
        Some(CodecHint::Mp3)
    );
}

#[test]
fn ambiguous_ogg_content_type_stays_generic_ogg() {
    assert_eq!(codec_from_content_type("audio/ogg"), Some(CodecHint::Ogg));
}

#[test]
fn url_detection_ignores_query_and_fragment() {
    assert_eq!(
        codec_from_url("https://radio.test/live.OPUS?token=abc#player"),
        Some(CodecHint::Opus)
    );
}

#[test]
fn unknown_inputs_remain_unknown() {
    let detection = detect_codec(b"not audio", "application/octet-stream", "https://x/live");
    assert_eq!(detection.hint, CodecHint::Unknown);
    assert_eq!(detection.source, CodecSource::Unknown);
    assert_eq!(detection.hint.label(), "Auto-detected");
}

#[test]
fn icy_metadata_does_not_participate_in_codec_detection() {
    // ICY headers are intentionally absent from this API. An AAC prebuffer
    // remains AAC regardless of whether the caller separately enables ICY.
    let detection = detect_codec(&[0xFF, 0xF1, 0x50], "", "https://radio.test/live");
    assert_eq!(detection.hint, CodecHint::Aac);
}

