use pulsedeck::persistence::{backup_file_name, corrupt_copy_suffix, sibling_file_name, temp_file_suffix};
use pulsedeck::playlist::export_file_name;

#[test]
fn backup_sits_beside_the_file_with_a_bak_suffix() {
    assert_eq!(backup_file_name(Some("library.json")), "library.json.bak");
    assert_eq!(backup_file_name(None), "pulsedeck-data.bak");
}

#[test]
fn sibling_names_append_the_suffix() {
    assert_eq!(sibling_file_name(Some("pulsedeck.toml"), ".corrupt-1-2"), "pulsedeck.toml.corrupt-1-2");
    assert_eq!(sibling_file_name(None, ".x"), "pulsedeck-data.x");
}

#[test]
fn corrupt_copies_and_temporaries_are_numbered() {
    assert_eq!(corrupt_copy_suffix(1700000000, 3), ".corrupt-1700000000-3");
    assert_eq!(temp_file_suffix(4242, 0), ".tmp-4242-0");
}

#[test]
fn export_name_carries_the_supplied_timestamp() {
    assert_eq!(export_file_name(42), "pulsedeck-export-42.m3u");
    assert_eq!(export_file_name(0), "pulsedeck-export-0.m3u");
}
