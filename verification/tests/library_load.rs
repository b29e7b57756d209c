use pulsedeck::favorites::{
    ensure_library_target_is_safe_to_replace, library_version_warning, load_primary,
    recover_from_backup, LibraryFileRead, LibraryTarget, MissingLibraryPolicy, Settings,
};
use pulsedeck::radio::Station;

fn seed() -> Vec<Station> {
    vec![Station::basic("Seed", "http://seed", "Synthwave", "US", 128)]
}

#[test]
fn version_warnings_name_both_versions() {
    assert_eq!(library_version_warning(1), None);
    assert_eq!(
        library_version_warning(2),
        Some("Library file version 2 is newer than supported version 1; saving is disabled to prevent data loss".to_string())
    );
    assert_eq!(
        library_version_warning(0),
        Some("Library file version 0 is older than supported version 1".to_string())
    );
}

#[test]
fn primary_file_loads_or_reports_its_failure() {
    let mut warnings = Vec::new();
    let read = LibraryFileRead::Parsed { stations: seed(), settings: Settings::default(), version: 2 };
    let (stations, _) = load_primary(read, &mut warnings).unwrap();
    assert_eq!(stations.len(), 1);
    assert_eq!(warnings.len(), 1);
    let err = load_primary(LibraryFileRead::Malformed("expected value".to_string()), &mut warnings).unwrap_err();
    assert_eq!(err, "Could not parse library.json: expected value");
    let err = load_primary(LibraryFileRead::Unreadable("denied".to_string()), &mut warnings).unwrap_err();
    assert_eq!(err, "Could not read library.json: denied");
    assert_eq!(warnings.len(), 1);
}

#[test]
fn corrupt_primary_uses_valid_backup_without_requesting_seed_save() {
    let mut warnings = Vec::new();
    let backup = LibraryFileRead::Parsed {
        stations: vec![Station::basic("Backup", "http://b", "Ambient", "UK", 96)],
        settings: Settings::default(),
        version: 1,
    };
    let (stations, _, save) = recover_from_backup(
        "Could not parse library.json: eof",
        backup,
        "/cfg/library.json.bak",
        &MissingLibraryPolicy::SeedAndSave(seed()),
        &mut warnings,
    );
    assert!(!save);
    assert_eq!(stations[0].name, "Backup");
    assert_eq!(
        warnings,
        vec!["Could not parse library.json: eof; recovered the last known good library from /cfg/library.json.bak. The damaged primary file was not overwritten.".to_string()]
    );
}

#[test]
fn corrupt_primary_without_backup_never_requests_seed_save() {
    let mut warnings = Vec::new();
    let (stations, _, save) = recover_from_backup(
        "Could not parse library.json: eof",
        LibraryFileRead::Unreadable("missing".to_string()),
        "/cfg/library.json.bak",
        &MissingLibraryPolicy::SeedAndSave(seed()),
        &mut warnings,
    );
    assert!(!save);
    assert_eq!(stations.len(), 1);
    assert!(warnings[0].ends_with("using a safe in-memory fallback. PulseDeck will not overwrite the existing library automatically."));
}

#[test]
fn malformed_library_is_never_safe_to_replace() {
    let err = ensure_library_target_is_safe_to_replace(&LibraryTarget::Malformed("bad".to_string()), "/l.json").unwrap_err();
    assert_eq!(err, "refusing to replace malformed library /l.json; preserve or repair it first: bad");
    let err = ensure_library_target_is_safe_to_replace(&LibraryTarget::Unreadable("denied".to_string()), "/l.json").unwrap_err();
    assert_eq!(err, "refusing to replace unreadable library /l.json: denied");
    assert!(ensure_library_target_is_safe_to_replace(&LibraryTarget::Missing, "/l.json").is_ok());
    assert!(ensure_library_target_is_safe_to_replace(&LibraryTarget::Version(1), "/l.json").is_ok());
}

#[test]
fn future_library_version_is_never_safe_to_downgrade() {
    let err = ensure_library_target_is_safe_to_replace(&LibraryTarget::Version(3), "/l.json").unwrap_err();
    assert_eq!(err, "refusing to downgrade library /l.json from version 3 to version 1");
}

#[test]
fn fallback_after_a_failed_backup_uses_default_settings() {
    let mut warnings: Vec<String> = Vec::new();
    let (stations, settings, write) = recover_from_backup(
        "library.json is damaged",
        LibraryFileRead::Malformed("expected value".to_string()),
        "library.json.bak",
        &MissingLibraryPolicy::SeedAndSave(seed()),
        &mut warnings,
    );
    assert_eq!(stations.len(), 1);
    assert!(!write);
    assert_eq!(warnings.len(), 1);
    let defaults = Settings::default();
    assert_eq!(settings.theme, defaults.theme);
    assert_eq!(settings.notifications_enabled, defaults.notifications_enabled);
    assert_eq!(settings.autoplay_last, defaults.autoplay_last);
    assert_eq!(settings.save_history, defaults.save_history);
    assert!(settings.favorites.is_empty());
    assert_eq!(settings.last_played_url, None);
}
