use pulsedeck::config_toml::parse::{parse_toml, ParseError, TomlScalar};
use pulsedeck::config_toml::serialize::{config_assignments, configs_equal, round_trip_verdict, TomlAssignment};
use pulsedeck::config_toml::AppConfig;

fn written_text(config: &AppConfig) -> String {
    let mut table = toml::map::Map::new();
    for a in config_assignments(config) {
        let sec = table
            .entry(a.section.clone())
            .or_insert_with(|| toml::Value::Table(toml::map::Map::new()))
            .as_table_mut()
            .unwrap();
        match a.value {
            Some(TomlScalar::Str(s)) => {
                sec.insert(a.key.clone(), toml::Value::String(s));
            }
            Some(TomlScalar::Int(i)) => {
                sec.insert(a.key.clone(), toml::Value::Integer(i));
            }
            Some(TomlScalar::Bool(b)) => {
                sec.insert(a.key.clone(), toml::Value::Boolean(b));
            }
            _ => {
                sec.remove(&a.key);
            }
        }
    }
    toml::to_string_pretty(&table).unwrap()
}

fn custom_config() -> AppConfig {
    let mut c = AppConfig::default();
    c.audio.output_device = Some("USB DAC".to_string());
    c.audio.default_volume = 35;
    c.ui.theme = "Terminal".to_string();
    c.ui.notifications_enabled = false;
    c.playback.save_history = true;
    c.keybindings.path = Some("/tmp/keys.json".to_string());
    c
}

#[test]
fn assignments_cover_every_section_in_order() {
    let a = config_assignments(&custom_config());
    let expected = vec![
        TomlAssignment { section: "audio".into(), key: "output_device".into(), value: Some(TomlScalar::Str("USB DAC".into())) },
        TomlAssignment { section: "audio".into(), key: "default_volume".into(), value: Some(TomlScalar::Int(35)) },
        TomlAssignment { section: "ui".into(), key: "theme".into(), value: Some(TomlScalar::Str("Terminal".into())) },
        TomlAssignment { section: "ui".into(), key: "notifications_enabled".into(), value: Some(TomlScalar::Bool(false)) },
        TomlAssignment { section: "ui".into(), key: "stream_metadata_enabled".into(), value: Some(TomlScalar::Bool(true)) },
        TomlAssignment { section: "playback".into(), key: "autoplay_last".into(), value: Some(TomlScalar::Bool(false)) },
        TomlAssignment { section: "playback".into(), key: "save_history".into(), value: Some(TomlScalar::Bool(true)) },
        TomlAssignment { section: "keybindings".into(), key: "path".into(), value: Some(TomlScalar::Str("/tmp/keys.json".into())) },
    ];
    assert_eq!(a, expected);
}

#[test]
fn absent_optional_values_remove_their_keys() {
    let a = config_assignments(&AppConfig::default());
    assert_eq!(a[0].value, None);
    assert_eq!(a[7].value, None);
    assert_eq!(a[1].value, Some(TomlScalar::Int(80)));
}

#[test]
fn written_config_reads_back_the_same() {
    for config in [AppConfig::default(), custom_config()] {
        let text = written_text(&config);
        let parsed = parse_toml(&text).unwrap();
        assert!(configs_equal(&parsed.config, &config));
        assert_eq!(round_trip_verdict(&config, parse_toml(&text)), Ok(()));
    }
}

#[test]
fn round_trip_verdict_reports_a_different_config() {
    let config = custom_config();
    let text = written_text(&AppConfig::default());
    assert_eq!(
        round_trip_verdict(&config, parse_toml(&text)),
        Err("round-trip produced different config".to_string())
    );
}

#[test]
fn round_trip_verdict_reports_a_parse_failure() {
    let err = ParseError { message: "expected `=`".to_string(), line: Some(2), col: Some(5) };
    assert_eq!(
        round_trip_verdict(&AppConfig::default(), Err(err)),
        Err("re-parse failed: expected `=` (line 2, col 5)".to_string())
    );
}

#[test]
fn configs_equal_compares_every_field() {
    let a = custom_config();
    assert!(configs_equal(&a, &a.clone()));
    let mut b = a.clone();
    b.keybindings.path = None;
    assert!(!configs_equal(&a, &b));
    let mut c = a.clone();
    c.ui.stream_metadata_enabled = false;
    assert!(!configs_equal(&a, &c));
}
