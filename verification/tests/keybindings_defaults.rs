use pulsedeck::action::Action;
use pulsedeck::keybindings::defaults::{
    command_palette_defaults, default_bindings, library_filter_defaults, normal_mode_defaults,
    search_mode_defaults, sleep_timer_defaults,
};
use pulsedeck::keybindings::{InputMode, KeySpec, Modifier, NamedKey};

#[test]
fn test_default_bindings_is_non_empty() {
    let bindings = default_bindings();
    assert!(!bindings.is_empty());
}

#[test]
fn test_all_modes_have_bindings() {
    let bindings = default_bindings();
    let has_normal = bindings.iter().any(|b| b.mode == InputMode::Normal);
    let has_search = bindings.iter().any(|b| b.mode == InputMode::Search);
    let has_command = bindings.iter().any(|b| b.mode == InputMode::CommandPalette);
    let has_sleep = bindings.iter().any(|b| b.mode == InputMode::SleepTimer);
    let has_filter = bindings.iter().any(|b| b.mode == InputMode::LibraryFilter);
    assert!(has_normal, "missing Normal mode bindings");
    assert!(has_search, "missing Search mode bindings");
    assert!(has_command, "missing CommandPalette mode bindings");
    assert!(has_sleep, "missing SleepTimer mode bindings");
    assert!(has_filter, "missing LibraryFilter mode bindings");
}

#[test]
fn test_known_binding_q_quits_in_normal() {
    let bindings = normal_mode_defaults();
    let quit_q = bindings.iter().find(|b| {
        b.key == KeySpec::Char('q') && b.modifiers.is_empty() && b.action == Action::Quit
    });
    assert!(quit_q.is_some(), "'q' should map to Quit in Normal mode");
}

#[test]
fn test_known_binding_esc_exits_search() {
    let bindings = search_mode_defaults();
    let esc_exit = bindings.iter().find(|b| {
        b.key == KeySpec::Named(NamedKey::Esc)
            && b.modifiers.is_empty()
            && b.action == Action::ExitSearch
    });
    assert!(
        esc_exit.is_some(),
        "Esc should map to ExitSearch in Search mode"
    );
}

#[test]
fn test_known_binding_enter_confirms_command_palette() {
    let bindings = command_palette_defaults();
    let enter = bindings.iter().find(|b| {
        b.key == KeySpec::Named(NamedKey::Enter)
            && b.modifiers.is_empty()
            && b.action == Action::CommandPaletteConfirm
    });
    assert!(
        enter.is_some(),
        "Enter should confirm in CommandPalette mode"
    );
}

#[test]
fn test_known_binding_sleep_timer_preset() {
    let bindings = sleep_timer_defaults();
    let preset_2 = bindings
        .iter()
        .find(|b| b.key == KeySpec::Char('2') && b.action == Action::SleepTimerPreset(30));
    assert!(preset_2.is_some(), "'2' should map to SleepTimerPreset(30)");
}

#[test]
fn test_known_binding_library_filter_esc_exits() {
    let bindings = library_filter_defaults();
    let esc = bindings.iter().find(|b| {
        b.key == KeySpec::Named(NamedKey::Esc)
            && b.modifiers.is_empty()
            && b.action == Action::ExitLibraryFilter
    });
    assert!(esc.is_some(), "Esc should exit LibraryFilter mode");
}

#[test]
fn normal_mode_defaults_bind_preset_slots() {
    let bindings = normal_mode_defaults();
    for digit in 1u8..=5 {
        let c = (b'0' + digit) as char;
        assert!(bindings.iter().any(|b| b.key == KeySpec::Char(c)
            && b.modifiers == vec![Modifier::Alt]
            && b.action == Action::PlaySlot(digit)
            && b.mode == InputMode::Normal));
        assert!(bindings.iter().any(|b| b.key == KeySpec::Char(c)
            && b.modifiers == vec![Modifier::Ctrl]
            && b.action == Action::AssignSlot(digit)
            && b.mode == InputMode::Normal));
    }
    assert!(!bindings.iter().any(|b| b.key == KeySpec::Char('6') && b.modifiers == vec![Modifier::Alt]));
}
