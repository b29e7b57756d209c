use pulsedeck::config_toml::parse::{
    clamp_volume, line_col_from_offset, parse_audio_section, parse_keybindings_section,
    parse_playback_section, parse_toml, parse_ui_section, validate_theme, ParseError, TomlScalar,
};
use pulsedeck::config_toml::{AppConfig, AudioConfig, KeybindingsConfig, PlaybackConfig, UiConfig};

#[test]
fn test_audio_config_default_values() {
    let config = AudioConfig::default();

    assert_eq!(config.output_device, None);
    assert_eq!(config.default_volume, 80);
}

#[test]
fn test_ui_config_default_values() {
    let config = UiConfig::default();

    assert_eq!(config.theme, "Retrowave");
    assert!(config.notifications_enabled);
    assert!(config.stream_metadata_enabled);
}

#[test]
fn test_playback_config_default_values() {
    let config = PlaybackConfig::default();

    assert!(!config.autoplay_last);
    assert!(!config.save_history);
}

#[test]
fn test_keybindings_config_default_values() {
    let config = KeybindingsConfig::default();

    assert_eq!(config.path, None);
}

#[test]
fn test_app_config_default_composes_sub_defaults() {
    let config = AppConfig::default();

    assert_eq!(config.audio, AudioConfig::default());
    assert_eq!(config.ui, UiConfig::default());
    assert_eq!(config.playback, PlaybackConfig::default());
    assert_eq!(config.keybindings, KeybindingsConfig::default());
}

#[test]
fn clamp_volume_limits_and_warns() {
    let mut warnings = Vec::new();
    assert_eq!(clamp_volume(150, &mut warnings), 100);
    assert_eq!(clamp_volume(-5, &mut warnings), 0);
    assert_eq!(clamp_volume(42, &mut warnings), 42);
    assert_eq!(clamp_volume(i64::MIN, &mut warnings), 0);
    assert_eq!(
        warnings,
        vec![
            "audio.default_volume: '150' is invalid, clamped to 100".to_string(),
            "audio.default_volume: '-5' is invalid, clamped to 0".to_string(),
            "audio.default_volume: '-9223372036854775808' is invalid, clamped to 0".to_string(),
        ]
    );
}

#[test]
fn validate_theme_accepts_known_themes_only() {
    let mut warnings = Vec::new();
    for theme in ["Retrowave", "Catppuccin Mocha", "Catppuccin Macchiato", "Catppuccin Frappé", "Catppuccin Latte", "Terminal"] {
        assert_eq!(validate_theme(theme, &mut warnings), theme);
    }
    assert!(warnings.is_empty());
    assert_eq!(validate_theme("NonExistent", &mut warnings), "Retrowave");
    assert_eq!(warnings, vec!["ui.theme: 'NonExistent' is invalid, using default 'Retrowave'".to_string()]);
}

#[test]
fn parse_error_describes_its_location() {
    let e = ParseError { message: "expected value".to_string(), line: Some(2), col: Some(18) };
    assert_eq!(e.describe(), "expected value (line 2, col 18)");
    let e = ParseError { message: "bad".to_string(), line: Some(2), col: None };
    assert_eq!(e.describe(), "bad");
}

#[test]
fn line_col_counts_lines_and_bytes() {
    let input = "[audio]\ndefault_volume = ???\n";
    assert_eq!(line_col_from_offset(input, 25), (Some(2), Some(18)));
    assert_eq!(line_col_from_offset(input, 0), (Some(0), Some(1)));
    assert_eq!(line_col_from_offset(input, 8), (Some(1), Some(1)));
    assert_eq!(line_col_from_offset("ab", 10), (Some(1), Some(11)));
}

const FULL_CONFIG: &str = r#"
[audio]
output_device = "Built-in Speakers"
default_volume = 80

[ui]
theme = "Retrowave"
notifications_enabled = true
stream_metadata_enabled = true

[playback]
autoplay_last = false
save_history = false

[scrobble]
enabled = false
service = "lastfm"
api_key = ""

[keybindings]
path = "keybindings.json"
"#;

#[test]
fn test_parse_toml_full_config_parses_correctly() {
    let result = parse_toml(FULL_CONFIG).unwrap();

    assert_eq!(result.config.audio.output_device, Some("Built-in Speakers".to_string()));
    assert_eq!(result.config.audio.default_volume, 80);
    assert_eq!(result.config.ui.theme, "Retrowave");
    assert!(result.config.ui.notifications_enabled);
    assert!(result.config.ui.stream_metadata_enabled);
    assert!(!result.config.playback.autoplay_last);
    assert!(!result.config.playback.save_history);
    assert_eq!(result.config.keybindings.path, Some("keybindings.json".to_string()));
    assert!(result.warnings.is_empty());
}

#[test]
fn test_parse_toml_partial_config_uses_defaults() {
    let input = "[audio]\ndefault_volume = 50\n";
    let result = parse_toml(input).unwrap();

    assert_eq!(result.config.audio.default_volume, 50);
    assert_eq!(result.config.audio.output_device, None);
    assert_eq!(result.config.ui, UiConfig::default());
    assert_eq!(result.config.playback, PlaybackConfig::default());
    assert_eq!(result.config.keybindings, KeybindingsConfig::default());
    assert!(result.warnings.is_empty());
}

#[test]
fn test_parse_toml_empty_string_returns_all_defaults() {
    let result = parse_toml("").unwrap();

    assert_eq!(result.config, AppConfig::default());
    assert!(result.warnings.is_empty());
}

#[test]
fn test_parse_toml_volume_above_100_clamped() {
    let input = "[audio]\ndefault_volume = 150\n";
    let result = parse_toml(input).unwrap();

    assert_eq!(result.config.audio.default_volume, 100);
    assert_eq!(result.warnings.len(), 1);
    assert_eq!(result.warnings[0], "audio.default_volume: '150' is invalid, clamped to 100");
}

#[test]
fn test_parse_toml_volume_below_0_clamped() {
    let input = "[audio]\ndefault_volume = -5\n";
    let result = parse_toml(input).unwrap();

    assert_eq!(result.config.audio.default_volume, 0);
    assert_eq!(result.warnings.len(), 1);
    assert_eq!(result.warnings[0], "audio.default_volume: '-5' is invalid, clamped to 0");
}

#[test]
fn test_parse_toml_unknown_theme_falls_back_to_retrowave() {
    let input = "[ui]\ntheme = \"NonExistent\"\n";
    let result = parse_toml(input).unwrap();

    assert_eq!(result.config.ui.theme, "Retrowave");
    assert_eq!(result.warnings.len(), 1);
    assert_eq!(result.warnings[0], "ui.theme: 'NonExistent' is invalid, using default 'Retrowave'");
}

#[test]
fn test_parse_toml_valid_themes_accepted() {
    for theme in ["Retrowave", "Catppuccin Mocha", "Catppuccin Macchiato",
                  "Catppuccin Frappé", "Catppuccin Latte", "Terminal"] {
        let input = format!("[ui]\ntheme = \"{}\"\n", theme);
        let result = parse_toml(&input).unwrap();
        assert_eq!(result.config.ui.theme, theme);
        assert!(result.warnings.is_empty(), "unexpected warning for theme '{}'", theme);
    }
}

#[test]
fn test_parse_toml_unknown_keys_preserved() {
    let input = r#"
[audio]
default_volume = 75
unknown_key = true

[custom_section]
foo = "bar"
"#;
    let result = parse_toml(input).unwrap();

    assert_eq!(result.config.audio.default_volume, 75);
    let preserved_table = result.preserved.as_table().unwrap();
    assert!(preserved_table.contains_key("custom_section"));
    let audio_table = preserved_table.get("audio").unwrap().as_table().unwrap();
    assert!(audio_table.contains_key("unknown_key"));
}

#[test]
fn test_parse_toml_invalid_toml_returns_error() {
    let input = "this is not valid [toml";
    let result = parse_toml(input);

    assert!(result.is_err());
    let err = result.unwrap_err();
    assert!(!err.message.is_empty());
}

#[test]
fn test_parse_toml_error_includes_location() {
    let input = "[audio]\ndefault_volume = ???\n";
    let result = parse_toml(input);

    assert!(result.is_err());
    let err = result.unwrap_err();
    assert!(err.line.is_some());
    assert!(err.col.is_some());
}

#[test]
fn test_warning_format_volume_uses_dotted_path_pattern() {
    let input = "[audio]\ndefault_volume = 200\n";
    let result = parse_toml(input).unwrap();

    let warning = &result.warnings[0];
    assert!(warning.starts_with("audio.default_volume: '"));
    assert!(warning.contains("' is invalid, "));
    assert!(warning.ends_with("clamped to 100"));
}

#[test]
fn test_warning_format_theme_uses_dotted_path_pattern() {
    let input = "[ui]\ntheme = \"Bogus\"\n";
    let result = parse_toml(input).unwrap();

    let warning = &result.warnings[0];
    assert!(warning.starts_with("ui.theme: '"));
    assert!(warning.contains("' is invalid, "));
    assert!(warning.ends_with("using default 'Retrowave'"));
}

#[test]
fn test_warning_format_volume_negative_includes_value() {
    let input = "[audio]\ndefault_volume = -999\n";
    let result = parse_toml(input).unwrap();

    assert_eq!(result.warnings[0], "audio.default_volume: '-999' is invalid, clamped to 0");
}

#[test]
fn volume_clamping_holds_across_the_i64_range() {
    for value in [i64::MIN, -101, -1, 0, 1, 50, 99, 100, 101, 1000, i64::MAX] {
        let input = format!("[audio]\ndefault_volume = {}\n", value);
        let vol = parse_toml(&input).unwrap().config.audio.default_volume;
        if value < 0 {
            assert_eq!(vol, 0);
        } else if value > 100 {
            assert_eq!(vol, 100);
        } else {
            assert_eq!(vol as i64, value);
        }
    }
}

#[test]
fn values_of_the_wrong_kind_take_defaults() {
    let input = "[audio]\ndefault_volume = \"loud\"\noutput_device = 3\n[ui]\ntheme = 7\nnotifications_enabled = \"no\"\n[playback]\nsave_history = 1\n";
    let result = parse_toml(input).unwrap();
    assert_eq!(result.config, AppConfig::default());
    assert!(result.warnings.is_empty());
}

#[test]
fn warnings_come_in_section_order() {
    let input = "[ui]\ntheme = \"Nope\"\n[audio]\ndefault_volume = 101\n";
    let result = parse_toml(input).unwrap();
    assert_eq!(
        result.warnings,
        vec![
            "audio.default_volume: '101' is invalid, clamped to 100".to_string(),
            "ui.theme: 'Nope' is invalid, using default 'Retrowave'".to_string(),
        ]
    );
}

#[test]
fn section_parsers_read_the_values_given() {
    let mut warnings = Vec::new();
    let audio = parse_audio_section(Some(TomlScalar::Str("Headphones".to_string())), Some(TomlScalar::Int(-3)), &mut warnings);
    assert_eq!(audio.output_device.as_deref(), Some("Headphones"));
    assert_eq!(audio.default_volume, 0);
    let ui = parse_ui_section(Some(TomlScalar::Str("Terminal".to_string())), Some(TomlScalar::Bool(false)), None, &mut warnings);
    assert_eq!(ui.theme, "Terminal");
    assert!(!ui.notifications_enabled);
    assert!(ui.stream_metadata_enabled);
    let playback = parse_playback_section(Some(TomlScalar::Bool(true)), Some(TomlScalar::Other));
    assert!(playback.autoplay_last);
    assert!(!playback.save_history);
    let keys = parse_keybindings_section(Some(TomlScalar::Str("keys.json".to_string())));
    assert_eq!(keys.path.as_deref(), Some("keys.json"));
    assert_eq!(warnings, vec!["audio.default_volume: '-3' is invalid, clamped to 0".to_string()]);
}
