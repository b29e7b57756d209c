use pulsedeck::audio::recording::{album_label, duplicate_skip_message, sanitize_filename, split_artist_title};

#[test]
fn split_artist_title_parses_artist_and_title() {
    assert_eq!(
        split_artist_title("Artist - Song"),
        ("Artist".to_string(), "Song".to_string())
    );
}

#[test]
fn split_artist_title_falls_back_without_separator() {
    assert_eq!(
        split_artist_title("Mystery Transmission"),
        (
            "Unknown Artist".to_string(),
            "Mystery Transmission".to_string()
        )
    );
}

#[test]
fn album_label_includes_source_url_when_available() {
    assert_eq!(
        album_label(Some("https://example.test/stream")),
        "PulseDeck live capture · https://example.test/stream"
    );
}

#[test]
fn duplicate_skip_message_names_track() {
    assert_eq!(
        duplicate_skip_message("Artist - Song"),
        "Duplicate recording skipped: Artist - Song"
    );
}

#[test]
fn test_sanitize_filename() {
    assert_eq!(sanitize_filename("normal_file.mp3"), "normal_file.mp3");
    assert_eq!(sanitize_filename("artist/song?.mp3"), "artist-song-.mp3");
    assert_eq!(
        sanitize_filename("windows\\invalid:name*char\".mp3"),
        "windows-invalid-name-char-.mp3"
    );
    assert_eq!(sanitize_filename("<tag> | pipe.mp3"), "-tag- - pipe.mp3");
}

