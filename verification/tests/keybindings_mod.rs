use pulsedeck::action::Action;
use pulsedeck::keybindings::{parse_key_spec, parse_modifier, InputMode, KeyBinding, KeySpec, Modifier, NamedKey};

#[test]
fn test_parse_key_spec_char_lowercase() {
    assert_eq!(parse_key_spec("char(k)"), Some(KeySpec::Char('k')));
}

#[test]
fn test_parse_key_spec_char_uppercase() {
    assert_eq!(parse_key_spec("char(K)"), Some(KeySpec::Char('K')));
}

#[test]
fn test_parse_key_spec_char_space() {
    assert_eq!(parse_key_spec("char( )"), Some(KeySpec::Char(' ')));
}

#[test]
fn test_parse_key_spec_enter() {
    assert_eq!(
        parse_key_spec("enter"),
        Some(KeySpec::Named(NamedKey::Enter))
    );
}

#[test]
fn test_parse_key_spec_esc() {
    assert_eq!(parse_key_spec("esc"), Some(KeySpec::Named(NamedKey::Esc)));
}

#[test]
fn test_parse_key_spec_up() {
    assert_eq!(parse_key_spec("up"), Some(KeySpec::Named(NamedKey::Up)));
}

#[test]
fn test_parse_key_spec_down() {
    assert_eq!(parse_key_spec("down"), Some(KeySpec::Named(NamedKey::Down)));
}

#[test]
fn test_parse_key_spec_tab() {
    assert_eq!(parse_key_spec("tab"), Some(KeySpec::Named(NamedKey::Tab)));
}

#[test]
fn test_parse_key_spec_backspace() {
    assert_eq!(
        parse_key_spec("backspace"),
        Some(KeySpec::Named(NamedKey::Backspace))
    );
}

#[test]
fn test_parse_key_spec_function_f3() {
    assert_eq!(parse_key_spec("f3"), Some(KeySpec::Function(3)));
}

#[test]
fn test_parse_key_spec_function_f12() {
    assert_eq!(parse_key_spec("f12"), Some(KeySpec::Function(12)));
}

#[test]
fn test_parse_key_spec_case_insensitive() {
    assert_eq!(
        parse_key_spec("Enter"),
        Some(KeySpec::Named(NamedKey::Enter))
    );
    assert_eq!(
        parse_key_spec("BACKSPACE"),
        Some(KeySpec::Named(NamedKey::Backspace))
    );
}

#[test]
fn test_parse_key_spec_with_whitespace() {
    assert_eq!(
        parse_key_spec("  enter  "),
        Some(KeySpec::Named(NamedKey::Enter))
    );
}

#[test]
fn test_parse_key_spec_pageup_pagedown() {
    assert_eq!(
        parse_key_spec("pageup"),
        Some(KeySpec::Named(NamedKey::PageUp))
    );
    assert_eq!(
        parse_key_spec("pagedown"),
        Some(KeySpec::Named(NamedKey::PageDown))
    );
}

#[test]
fn test_parse_key_spec_home_end() {
    assert_eq!(parse_key_spec("home"), Some(KeySpec::Named(NamedKey::Home)));
    assert_eq!(parse_key_spec("end"), Some(KeySpec::Named(NamedKey::End)));
}

#[test]
fn test_parse_key_spec_delete_insert() {
    assert_eq!(
        parse_key_spec("delete"),
        Some(KeySpec::Named(NamedKey::Delete))
    );
    assert_eq!(
        parse_key_spec("insert"),
        Some(KeySpec::Named(NamedKey::Insert))
    );
}

#[test]
fn test_parse_key_spec_empty_string() {
    assert_eq!(parse_key_spec(""), None);
}

#[test]
fn test_parse_key_spec_unknown_name() {
    assert_eq!(parse_key_spec("capslock"), None);
}

#[test]
fn test_parse_key_spec_char_multiple_chars() {
    assert_eq!(parse_key_spec("char(ab)"), None);
}

#[test]
fn test_parse_key_spec_char_empty() {
    assert_eq!(parse_key_spec("char()"), None);
}

#[test]
fn test_parse_key_spec_function_f0() {
    assert_eq!(parse_key_spec("f0"), None);
}

#[test]
fn test_parse_key_spec_function_f13() {
    assert_eq!(parse_key_spec("f13"), None);
}

#[test]
fn test_parse_key_spec_function_not_a_number() {
    assert_eq!(parse_key_spec("fx"), None);
}

#[test]
fn test_parse_modifier_ctrl() {
    assert_eq!(parse_modifier("ctrl"), Some(Modifier::Ctrl));
}

#[test]
fn test_parse_modifier_alt() {
    assert_eq!(parse_modifier("alt"), Some(Modifier::Alt));
}

#[test]
fn test_parse_modifier_shift() {
    assert_eq!(parse_modifier("shift"), Some(Modifier::Shift));
}

#[test]
fn test_parse_modifier_case_insensitive() {
    assert_eq!(parse_modifier("CTRL"), Some(Modifier::Ctrl));
    assert_eq!(parse_modifier("Alt"), Some(Modifier::Alt));
    assert_eq!(parse_modifier("SHIFT"), Some(Modifier::Shift));
}

#[test]
fn test_parse_modifier_with_whitespace() {
    assert_eq!(parse_modifier("  ctrl  "), Some(Modifier::Ctrl));
}

#[test]
fn test_parse_modifier_invalid() {
    assert_eq!(parse_modifier("meta"), None);
    assert_eq!(parse_modifier(""), None);
    assert_eq!(parse_modifier("super"), None);
}

#[test]
fn test_keybinding_construction() {
    let binding = KeyBinding {
        key: KeySpec::Char('k'),
        modifiers: vec![Modifier::Ctrl],
        action: Action::PrevStation,
        mode: InputMode::Normal,
    };
    assert_eq!(binding.key, KeySpec::Char('k'));
    assert_eq!(binding.modifiers, vec![Modifier::Ctrl]);
    assert_eq!(binding.action, Action::PrevStation);
    assert_eq!(binding.mode, InputMode::Normal);
}
