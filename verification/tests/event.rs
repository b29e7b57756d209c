use pulsedeck::action::Action;
use pulsedeck::event::{
    char_input_fallback, key_code_to_spec, key_modifiers_to_vec, map_key_with_registry,
    map_mini_mode_key, DisplayMode, KeyInput, KeyPress,
};
use pulsedeck::keybindings::defaults::default_bindings;
use pulsedeck::keybindings::{InputMode, KeyBinding, KeySpec, KeybindingRegistry, Modifier, NamedKey};

fn press(code: KeyInput) -> KeyPress {
    KeyPress { code, ctrl: false, alt: false, shift: false, is_press: true }
}

fn ctrl(code: KeyInput) -> KeyPress {
    KeyPress { ctrl: true, ..press(code) }
}

fn registry() -> KeybindingRegistry {
    KeybindingRegistry::new_with_defaults(default_bindings())
}

#[test]
fn registry_bindings_come_first() {
    let r = registry();
    assert_eq!(
        map_key_with_registry(&press(KeyInput::Char('q')), &InputMode::Normal, &DisplayMode::Normal, &r),
        Some(Action::Quit)
    );
    assert_eq!(
        map_key_with_registry(&ctrl(KeyInput::Char('c')), &InputMode::Search, &DisplayMode::Normal, &r),
        Some(Action::Quit)
    );
    assert_eq!(
        map_key_with_registry(&press(KeyInput::BackTab), &InputMode::Normal, &DisplayMode::Normal, &r),
        Some(Action::NextGenre)
    );
}

#[test]
fn unbound_characters_are_text_input() {
    let r = registry();
    assert_eq!(
        map_key_with_registry(&press(KeyInput::Char('x')), &InputMode::Search, &DisplayMode::Normal, &r),
        Some(Action::SearchInput('x'))
    );
    assert_eq!(
        map_key_with_registry(&press(KeyInput::Char('x')), &InputMode::CommandPalette, &DisplayMode::Normal, &r),
        Some(Action::CommandPaletteInput('x'))
    );
    assert_eq!(
        map_key_with_registry(&press(KeyInput::Char('7')), &InputMode::Normal, &DisplayMode::Normal, &r),
        Some(Action::NumberJumpDigit('7'))
    );
    assert_eq!(
        map_key_with_registry(&press(KeyInput::Char('x')), &InputMode::SleepTimer, &DisplayMode::Normal, &r),
        None
    );
}

#[test]
fn releases_never_act() {
    let r = registry();
    let mut k = press(KeyInput::Char('q'));
    k.is_press = false;
    assert_eq!(map_key_with_registry(&k, &InputMode::Normal, &DisplayMode::Normal, &r), None);
}

#[test]
fn mini_mode_uses_its_own_table() {
    let r = registry();
    assert_eq!(
        map_key_with_registry(&press(KeyInput::Char(' ')), &InputMode::Normal, &DisplayMode::Mini, &r),
        Some(Action::TogglePause)
    );
    assert_eq!(
        map_key_with_registry(&press(KeyInput::Char('/')), &InputMode::Normal, &DisplayMode::Mini, &r),
        None
    );
    assert_eq!(map_mini_mode_key(&press(KeyInput::F(6))), Some(Action::ToggleMiniMode));
    assert_eq!(map_mini_mode_key(&press(KeyInput::Char('c'))), None);
    assert_eq!(map_mini_mode_key(&ctrl(KeyInput::Char('c'))), Some(Action::Quit));
}

#[test]
fn search_input_ignores_modified_characters() {
    assert_eq!(char_input_fallback(&ctrl(KeyInput::Char('a')), &InputMode::Search), None);
    assert_eq!(char_input_fallback(&press(KeyInput::Enter), &InputMode::Search), None);
    assert_eq!(char_input_fallback(&ctrl(KeyInput::Char('5')), &InputMode::Normal), None);
}

#[test]
fn key_codes_and_modifiers_convert() {
    assert_eq!(key_code_to_spec(KeyInput::F(3)), Some(KeySpec::Function(3)));
    assert_eq!(key_code_to_spec(KeyInput::PageUp), Some(KeySpec::Named(NamedKey::PageUp)));
    assert_eq!(key_code_to_spec(KeyInput::Other), None);
    let k = KeyPress { code: KeyInput::Char('a'), ctrl: true, alt: true, shift: true, is_press: true };
    assert_eq!(key_modifiers_to_vec(&k), vec![Modifier::Ctrl, Modifier::Alt, Modifier::Shift]);
}

fn key(code: KeyInput) -> KeyPress {
    press(code)
}

fn binding(key: KeySpec, modifiers: Vec<Modifier>, action: Action, mode: InputMode) -> KeyBinding {
    KeyBinding { key, modifiers, action, mode }
}

fn normal(key: &KeyPress, registry: &KeybindingRegistry) -> Option<Action> {
    map_key_with_registry(key, &InputMode::Normal, &DisplayMode::Normal, registry)
}

#[test]
fn mini_mode_space_toggles_pause() {
    assert_eq!(map_mini_mode_key(&key(KeyInput::Char(' '))), Some(Action::TogglePause));
}

#[test]
fn mini_mode_plus_and_equals_volume_up() {
    assert_eq!(map_mini_mode_key(&key(KeyInput::Char('+'))), Some(Action::VolumeUp));
    assert_eq!(map_mini_mode_key(&key(KeyInput::Char('='))), Some(Action::VolumeUp));
}

#[test]
fn mini_mode_minus_volume_down() {
    assert_eq!(map_mini_mode_key(&key(KeyInput::Char('-'))), Some(Action::VolumeDown));
}

#[test]
fn mini_mode_s_stops_playback() {
    assert_eq!(map_mini_mode_key(&key(KeyInput::Char('s'))), Some(Action::Stop));
}

#[test]
fn mini_mode_q_quits() {
    assert_eq!(map_mini_mode_key(&key(KeyInput::Char('q'))), Some(Action::Quit));
}

#[test]
fn mini_mode_ctrl_c_quits() {
    assert_eq!(map_mini_mode_key(&ctrl(KeyInput::Char('c'))), Some(Action::Quit));
}

#[test]
fn mini_mode_m_toggles_mute() {
    assert_eq!(map_mini_mode_key(&key(KeyInput::Char('m'))), Some(Action::ToggleMute));
}

#[test]
fn mini_mode_f6_toggles_mini_mode() {
    assert_eq!(map_mini_mode_key(&key(KeyInput::F(6))), Some(Action::ToggleMiniMode));
}

#[test]
fn mini_mode_disallowed_keys_return_none() {
    let disallowed = [
        KeyInput::Char('j'),
        KeyInput::Char('k'),
        KeyInput::Up,
        KeyInput::Down,
        KeyInput::Char('/'),
        KeyInput::Char(':'),
        KeyInput::Char('?'),
        KeyInput::Char('h'),
        KeyInput::Char('i'),
        KeyInput::Char('g'),
        KeyInput::Char('d'),
        KeyInput::Char('b'),
        KeyInput::Char(','),
        KeyInput::Tab,
        KeyInput::BackTab,
        KeyInput::Enter,
        KeyInput::Char('t'),
        KeyInput::Char('e'),
    ];
    for code in disallowed {
        assert_eq!(map_mini_mode_key(&key(code)), None, "Expected None for {:?}", code);
    }
}

#[test]
fn custom_binding_overrides_hardcoded_table() {
    let mut registry = registry();
    registry.customs.push(binding(KeySpec::Char('q'), vec![], Action::Stop, InputMode::Normal));
    assert_eq!(normal(&press(KeyInput::Char('q')), &registry), Some(Action::Stop));
}

#[test]
fn unmatched_registry_falls_through_to_defaults() {
    let registry = registry();
    assert_eq!(normal(&press(KeyInput::Char('q')), &registry), Some(Action::Quit));
}

#[test]
fn missing_file_uses_defaults_only() {
    let registry = registry();
    assert_eq!(normal(&press(KeyInput::Enter), &registry), Some(Action::PlaySelected));
}

#[test]
fn invalid_file_uses_defaults_with_warning() {
    let mut warnings = Vec::new();
    let parse_error = serde_json::from_slice::<Vec<serde_json::Value>>(b"not json{{")
        .unwrap_err()
        .to_string();
    let custom = KeybindingRegistry::from_parsed_entries(Err(parse_error), &mut warnings);
    assert!(!warnings.is_empty());
    assert!(warnings[0].contains("Malformed"));

    let mut registry = registry();
    registry.customs = custom.customs;
    assert_eq!(normal(&press(KeyInput::Char('q')), &registry), Some(Action::Quit));
}

#[test]
fn custom_binding_with_modifiers_resolves() {
    let mut registry = registry();
    registry.customs.push(binding(KeySpec::Char('x'), vec![Modifier::Ctrl], Action::ExportLibrary, InputMode::Normal));
    assert_eq!(normal(&ctrl(KeyInput::Char('x')), &registry), Some(Action::ExportLibrary));
}

#[test]
fn custom_binding_mode_specific_does_not_leak() {
    let mut registry = registry();
    registry.customs.push(binding(KeySpec::Char('x'), vec![], Action::VolumeUp, InputMode::Search));
    assert_eq!(normal(&press(KeyInput::Char('x')), &registry), None);
}

#[test]
fn key_release_events_are_ignored() {
    let mut registry = registry();
    registry.customs.push(binding(KeySpec::Char('q'), vec![], Action::Stop, InputMode::Normal));
    let release = KeyPress { is_press: false, ..press(KeyInput::Char('q')) };
    assert_eq!(normal(&release, &registry), None);
}

#[test]
fn key_code_to_spec_converts_char() {
    assert_eq!(key_code_to_spec(KeyInput::Char('a')), Some(KeySpec::Char('a')));
}

#[test]
fn key_code_to_spec_converts_function_key() {
    assert_eq!(key_code_to_spec(KeyInput::F(5)), Some(KeySpec::Function(5)));
}

#[test]
fn key_code_to_spec_converts_named_keys() {
    assert_eq!(key_code_to_spec(KeyInput::Enter), Some(KeySpec::Named(NamedKey::Enter)));
    assert_eq!(key_code_to_spec(KeyInput::Esc), Some(KeySpec::Named(NamedKey::Esc)));
    assert_eq!(key_code_to_spec(KeyInput::Up), Some(KeySpec::Named(NamedKey::Up)));
    assert_eq!(key_code_to_spec(KeyInput::Down), Some(KeySpec::Named(NamedKey::Down)));
    assert_eq!(key_code_to_spec(KeyInput::Backspace), Some(KeySpec::Named(NamedKey::Backspace)));
}

#[test]
fn key_code_to_spec_returns_none_for_unsupported() {
    assert_eq!(key_code_to_spec(KeyInput::Other), None);
}

#[test]
fn key_modifiers_to_vec_converts_all_modifiers() {
    let k = KeyPress { ctrl: true, alt: true, shift: true, ..press(KeyInput::Char('a')) };
    let result = key_modifiers_to_vec(&k);
    assert!(result.contains(&Modifier::Ctrl));
    assert!(result.contains(&Modifier::Alt));
    assert!(result.contains(&Modifier::Shift));
    assert_eq!(result.len(), 3);
}

#[test]
fn key_modifiers_to_vec_returns_empty_for_none() {
    let result = key_modifiers_to_vec(&press(KeyInput::Char('a')));
    assert!(result.is_empty());
}
