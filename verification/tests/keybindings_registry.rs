use pulsedeck::action::Action;
use pulsedeck::keybindings::registry::MAX_BINDINGS;
use pulsedeck::keybindings::{
    parse_action_name, InputMode, KeyBinding, KeySpec, KeybindingRegistry, Modifier, NamedKey, RawEntry,
};

fn entry(key: &str, modifiers: &[&str], action: &str, mode: Option<&str>) -> RawEntry {
    RawEntry {
        key: key.to_string(),
        modifiers: modifiers.iter().map(|m| m.to_string()).collect(),
        action: action.to_string(),
        mode: mode.map(|m| m.to_string()),
    }
}

fn valid_entries() -> Vec<RawEntry> {
    vec![
        entry("char(k)", &["ctrl"], "prev_station", Some("Normal")),
        entry("enter", &[], "play_selected", None),
    ]
}

fn binding(key: KeySpec, modifiers: Vec<Modifier>, action: Action, mode: InputMode) -> KeyBinding {
    KeyBinding { key, modifiers, action, mode }
}

#[test]
fn test_from_json_valid_entries_load() {
    let mut warnings = Vec::new();
    let registry = KeybindingRegistry::from_parsed_entries(Ok(valid_entries()), &mut warnings);

    assert!(warnings.is_empty());
    assert_eq!(registry.customs.len(), 2);
    assert_eq!(registry.customs[0].action, Action::PrevStation);
    assert_eq!(registry.customs[0].key, KeySpec::Char('k'));
    assert_eq!(registry.customs[0].modifiers, vec![Modifier::Ctrl]);
    assert_eq!(registry.customs[0].mode, InputMode::Normal);
    assert_eq!(registry.customs[1].action, Action::PlaySelected);
    assert_eq!(registry.customs[1].mode, InputMode::Normal);
}

#[test]
fn test_from_json_invalid_action_skipped() {
    let entries = vec![
        entry("enter", &[], "nonexistent_action", None),
        entry("char(q)", &[], "quit", None),
    ];
    let mut warnings = Vec::new();
    let registry = KeybindingRegistry::from_parsed_entries(Ok(entries), &mut warnings);

    assert_eq!(registry.customs.len(), 1);
    assert_eq!(registry.customs[0].action, Action::Quit);
    assert_eq!(warnings.len(), 1);
    assert!(warnings[0].contains("Invalid action name"));
}

#[test]
fn test_from_json_invalid_key_spec_skipped() {
    let entries = vec![entry("capslock", &[], "quit", None), entry("esc", &[], "quit", None)];
    let mut warnings = Vec::new();
    let registry = KeybindingRegistry::from_parsed_entries(Ok(entries), &mut warnings);

    assert_eq!(registry.customs.len(), 1);
    assert_eq!(warnings.len(), 1);
    assert!(warnings[0].contains("Invalid key spec"));
}

#[test]
fn test_from_json_invalid_modifier_skipped() {
    let entries = vec![entry("enter", &["meta"], "quit", None), entry("esc", &[], "quit", None)];
    let mut warnings = Vec::new();
    let registry = KeybindingRegistry::from_parsed_entries(Ok(entries), &mut warnings);

    assert_eq!(registry.customs.len(), 1);
    assert_eq!(warnings.len(), 1);
    assert!(warnings[0].contains("Invalid modifier"));
}

#[test]
fn test_from_json_malformed_json_returns_defaults() {
    let err = serde_json::from_slice::<serde_json::Value>(b"not valid json{{{").unwrap_err();
    let mut warnings = Vec::new();
    let registry = KeybindingRegistry::from_parsed_entries(Err(err.to_string()), &mut warnings);

    assert!(registry.customs.is_empty());
    assert!(registry.defaults.is_empty());
    assert_eq!(warnings.len(), 1);
    assert!(warnings[0].contains("Malformed keybindings JSON"));
}

#[test]
fn test_from_json_truncates_at_max_bindings() {
    let entries: Vec<RawEntry> = (0..600).map(|_| entry("enter", &[], "quit", None)).collect();

    let mut warnings = Vec::new();
    let registry = KeybindingRegistry::from_parsed_entries(Ok(entries), &mut warnings);

    assert_eq!(registry.customs.len(), MAX_BINDINGS);
    assert_eq!(warnings.len(), 1);
    assert!(warnings[0].contains("truncated"));
}

#[test]
fn truncation_warning_names_both_counts() {
    let entries: Vec<RawEntry> = (0..513).map(|_| entry("esc", &[], "quit", None)).collect();
    let mut warnings = Vec::new();
    KeybindingRegistry::from_parsed_entries(Ok(entries), &mut warnings);
    assert_eq!(warnings, vec!["Keybindings truncated from 513 to 512".to_string()]);
}

#[test]
fn invalid_entry_warnings_quote_the_value() {
    let entries = vec![
        entry("capslock", &[], "quit", None),
        entry("esc", &[], "fly", None),
        entry("esc", &[], "quit", Some("Elsewhere")),
    ];
    let mut warnings = vec!["earlier".to_string()];
    let registry = KeybindingRegistry::from_parsed_entries(Ok(entries), &mut warnings);
    assert!(registry.customs.is_empty());
    assert_eq!(
        warnings,
        vec![
            "earlier".to_string(),
            "Invalid key spec: 'capslock'".to_string(),
            "Invalid action name: 'fly'".to_string(),
            "Invalid mode: 'Elsewhere'".to_string(),
        ]
    );
}

#[test]
fn test_from_json_mode_defaults_to_normal() {
    let entries = vec![entry("char(q)", &[], "quit", None)];
    let mut warnings = Vec::new();
    let registry = KeybindingRegistry::from_parsed_entries(Ok(entries), &mut warnings);

    assert_eq!(registry.customs[0].mode, InputMode::Normal);
}

#[test]
fn test_from_json_explicit_mode_applied() {
    let entries = vec![entry("esc", &[], "exit_search", Some("Search"))];
    let mut warnings = Vec::new();
    let registry = KeybindingRegistry::from_parsed_entries(Ok(entries), &mut warnings);

    assert_eq!(registry.customs[0].mode, InputMode::Search);
    assert!(warnings.is_empty());
}

#[test]
fn test_parse_action_name_simple() {
    assert_eq!(parse_action_name("play_selected"), Some(Action::PlaySelected));
    assert_eq!(parse_action_name("volume_up"), Some(Action::VolumeUp));
    assert_eq!(parse_action_name("quit"), Some(Action::Quit));
}

#[test]
fn test_parse_action_name_parameterized() {
    assert_eq!(parse_action_name("play_slot(3)"), Some(Action::PlaySlot(3)));
    assert_eq!(
        parse_action_name("sleep_timer_preset(30)"),
        Some(Action::SleepTimerPreset(30))
    );
}

#[test]
fn test_parse_action_name_invalid() {
    assert_eq!(parse_action_name("nonexistent"), None);
    assert_eq!(parse_action_name(""), None);
    assert_eq!(parse_action_name("play_slot(abc)"), None);
}

#[test]
fn parse_action_name_character_parameters() {
    assert_eq!(parse_action_name("search_input(x)"), Some(Action::SearchInput('x')));
    assert_eq!(parse_action_name("number_jump_digit(7)"), Some(Action::NumberJumpDigit('7')));
    assert_eq!(parse_action_name("search_input()"), None);
    assert_eq!(parse_action_name("play_slot(256)"), None);
}

#[test]
fn test_from_json_empty_array() {
    let mut warnings = Vec::new();
    let registry = KeybindingRegistry::from_parsed_entries(Ok(Vec::new()), &mut warnings);

    assert!(registry.customs.is_empty());
    assert!(warnings.is_empty());
}

#[test]
fn test_resolve_custom_overrides_default() {
    let defaults = vec![binding(KeySpec::Char('q'), vec![], Action::Quit, InputMode::Normal)];
    let mut registry = KeybindingRegistry::new_with_defaults(defaults);
    registry.customs.push(binding(KeySpec::Char('q'), vec![], Action::Stop, InputMode::Normal));

    let result = registry.resolve(&KeySpec::Char('q'), &[], &InputMode::Normal);
    assert_eq!(result, Some(Action::Stop));
}

#[test]
fn test_resolve_mode_isolation() {
    let mut registry = KeybindingRegistry::new_with_defaults(Vec::new());
    registry.customs.push(binding(KeySpec::Char('q'), vec![], Action::Quit, InputMode::Normal));

    let result = registry.resolve(&KeySpec::Char('q'), &[], &InputMode::Search);
    assert_eq!(result, None);
}

#[test]
fn test_resolve_unbound_key_returns_none() {
    let registry = KeybindingRegistry::new_with_defaults(Vec::new());

    let result = registry.resolve(&KeySpec::Char('z'), &[], &InputMode::Normal);
    assert_eq!(result, None);
}

#[test]
fn test_resolve_last_custom_wins_for_duplicates() {
    let mut registry = KeybindingRegistry::new_with_defaults(Vec::new());
    registry.customs.push(binding(KeySpec::Char('q'), vec![], Action::Quit, InputMode::Normal));
    registry.customs.push(binding(KeySpec::Char('q'), vec![], Action::Stop, InputMode::Normal));

    let result = registry.resolve(&KeySpec::Char('q'), &[], &InputMode::Normal);
    assert_eq!(result, Some(Action::Stop));
}

#[test]
fn test_resolve_modifier_order_independent() {
    let mut registry = KeybindingRegistry::new_with_defaults(Vec::new());
    registry.customs.push(binding(
        KeySpec::Char('c'),
        vec![Modifier::Ctrl, Modifier::Shift],
        Action::Quit,
        InputMode::Normal,
    ));

    let result = registry.resolve(
        &KeySpec::Char('c'),
        &[Modifier::Shift, Modifier::Ctrl],
        &InputMode::Normal,
    );
    assert_eq!(result, Some(Action::Quit));
}

#[test]
fn test_resolve_falls_through_to_defaults() {
    let defaults = vec![binding(
        KeySpec::Named(NamedKey::Enter),
        vec![],
        Action::PlaySelected,
        InputMode::Normal,
    )];
    let registry = KeybindingRegistry::new_with_defaults(defaults);

    let result = registry.resolve(&KeySpec::Named(NamedKey::Enter), &[], &InputMode::Normal);
    assert_eq!(result, Some(Action::PlaySelected));
}

#[test]
fn resolve_requires_the_same_modifier_set() {
    let registry = KeybindingRegistry::new_with_defaults(vec![binding(
        KeySpec::Char('c'),
        vec![Modifier::Ctrl],
        Action::Quit,
        InputMode::Normal,
    )]);
    assert_eq!(registry.resolve(&KeySpec::Char('c'), &[], &InputMode::Normal), None);
    assert_eq!(
        registry.resolve(&KeySpec::Char('c'), &[Modifier::Ctrl, Modifier::Alt], &InputMode::Normal),
        None
    );
    assert_eq!(
        registry.resolve(&KeySpec::Char('c'), &[Modifier::Ctrl, Modifier::Ctrl], &InputMode::Normal),
        Some(Action::Quit)
    );
}

#[test]
fn default_registry_resolves_preset_slot_keys() {
    let registry = KeybindingRegistry::new_with_defaults(pulsedeck::keybindings::defaults::default_bindings());
    assert_eq!(
        registry.resolve(&KeySpec::Char('1'), &[Modifier::Alt], &InputMode::Normal),
        Some(Action::PlaySlot(1))
    );
    assert_eq!(
        registry.resolve(&KeySpec::Char('5'), &[Modifier::Ctrl], &InputMode::Normal),
        Some(Action::AssignSlot(5))
    );
    assert_eq!(registry.resolve(&KeySpec::Char('6'), &[Modifier::Alt], &InputMode::Normal), None);
}
