use pulsedeck::action::Action;
use pulsedeck::event::{map_key_with_registry, DisplayMode, KeyInput, KeyPress};
use pulsedeck::keybindings::defaults::default_bindings;
use pulsedeck::keybindings::{InputMode, KeybindingRegistry};

const NORMAL_DISPLAY: DisplayMode = DisplayMode::Normal;

/// Held modifier keys.
#[derive(Debug, Clone, Copy)]
struct Mods {
    ctrl: bool,
    alt: bool,
    shift: bool,
}

impl Mods {
    const CONTROL: Mods = Mods { ctrl: true, alt: false, shift: false };
    const ALT: Mods = Mods { ctrl: false, alt: true, shift: false };
    const SHIFT: Mods = Mods { ctrl: false, alt: false, shift: true };
}

impl std::ops::BitOr for Mods {
    type Output = Mods;
    fn bitor(self, other: Mods) -> Mods {
        Mods { ctrl: self.ctrl || other.ctrl, alt: self.alt || other.alt, shift: self.shift || other.shift }
    }
}

fn key(code: KeyInput) -> KeyPress {
    KeyPress { code, ctrl: false, alt: false, shift: false, is_press: true }
}

fn modified_key(code: KeyInput, modifiers: Mods) -> KeyPress {
    KeyPress { code, ctrl: modifiers.ctrl, alt: modifiers.alt, shift: modifiers.shift, is_press: true }
}

/// The action of a key press under the default bindings.
fn map_key(key: KeyPress, mode: &InputMode, display_mode: &DisplayMode) -> Option<Action> {
    let registry = KeybindingRegistry::new_with_defaults(default_bindings());
    map_key_with_registry(&key, mode, display_mode, &registry)
}

#[test]
fn sleep_timer_mode_maps_adjust_presets_and_close() {
    assert_eq!(
        map_key(key(KeyInput::Up), &InputMode::SleepTimer, &NORMAL_DISPLAY),
        Some(Action::SleepTimerIncrease)
    );
    assert_eq!(
        map_key(
            key(KeyInput::Char('+')),
            &InputMode::SleepTimer,
            &NORMAL_DISPLAY
        ),
        Some(Action::SleepTimerIncrease)
    );
    assert_eq!(
        map_key(key(KeyInput::Down), &InputMode::SleepTimer, &NORMAL_DISPLAY),
        Some(Action::SleepTimerDecrease)
    );
    assert_eq!(
        map_key(
            key(KeyInput::Char('-')),
            &InputMode::SleepTimer,
            &NORMAL_DISPLAY
        ),
        Some(Action::SleepTimerDecrease)
    );
    assert_eq!(
        map_key(
            key(KeyInput::Char('2')),
            &InputMode::SleepTimer,
            &NORMAL_DISPLAY
        ),
        Some(Action::SleepTimerPreset(30))
    );
    assert_eq!(
        map_key(
            key(KeyInput::Char('0')),
            &InputMode::SleepTimer,
            &NORMAL_DISPLAY
        ),
        Some(Action::SleepTimerClear)
    );
    assert_eq!(
        map_key(
            key(KeyInput::Char('c')),
            &InputMode::SleepTimer,
            &NORMAL_DISPLAY
        ),
        Some(Action::SleepTimerClear)
    );
    assert_eq!(
        map_key(key(KeyInput::Esc), &InputMode::SleepTimer, &NORMAL_DISPLAY),
        Some(Action::ToggleSleepTimer)
    );
    assert_eq!(
        map_key(
            key(KeyInput::Char('t')),
            &InputMode::SleepTimer,
            &NORMAL_DISPLAY
        ),
        Some(Action::ToggleSleepTimer)
    );
}

#[test]
fn sleep_timer_mode_ctrl_c_quits() {
    assert_eq!(
        map_key(
            modified_key(KeyInput::Char('c'), Mods::CONTROL),
            &InputMode::SleepTimer,
            &NORMAL_DISPLAY
        ),
        Some(Action::Quit)
    );
}

#[test]
fn search_mode_treats_plain_f_as_text_input() {
    assert_eq!(
        map_key(key(KeyInput::Char('f')), &InputMode::Search, &NORMAL_DISPLAY),
        Some(Action::SearchInput('f'))
    );
}

#[test]
fn search_mode_treats_plain_a_as_text_input() {
    assert_eq!(
        map_key(key(KeyInput::Char('a')), &InputMode::Search, &NORMAL_DISPLAY),
        Some(Action::SearchInput('a'))
    );
}

#[test]
fn search_mode_treats_plain_u_as_text_input() {
    assert_eq!(
        map_key(key(KeyInput::Char('u')), &InputMode::Search, &NORMAL_DISPLAY),
        Some(Action::SearchInput('u'))
    );
}

#[test]
fn search_mode_treats_context_overlay_keys_as_text_input() {
    assert_eq!(
        map_key(key(KeyInput::Char('i')), &InputMode::Search, &NORMAL_DISPLAY),
        Some(Action::SearchInput('i'))
    );
    assert_eq!(
        map_key(key(KeyInput::Char('g')), &InputMode::Search, &NORMAL_DISPLAY),
        Some(Action::SearchInput('g'))
    );
    assert_eq!(
        map_key(key(KeyInput::Char('r')), &InputMode::Search, &NORMAL_DISPLAY),
        Some(Action::SearchInput('r'))
    );
}

#[test]
fn search_mode_f2_does_not_add_selected_result() {
    assert_eq!(
        map_key(key(KeyInput::F(2)), &InputMode::Search, &NORMAL_DISPLAY),
        None
    );
}

#[test]
fn search_mode_insert_does_not_add_selected_result() {
    assert_eq!(
        map_key(key(KeyInput::Insert), &InputMode::Search, &NORMAL_DISPLAY),
        None
    );
}

#[test]
fn search_mode_plain_audio_keys_remain_text_input() {
    assert_eq!(
        map_key(key(KeyInput::Char('m')), &InputMode::Search, &NORMAL_DISPLAY),
        Some(Action::SearchInput('m'))
    );
    assert_eq!(
        map_key(key(KeyInput::Char('-')), &InputMode::Search, &NORMAL_DISPLAY),
        Some(Action::SearchInput('-'))
    );
    assert_eq!(
        map_key(key(KeyInput::Char('=')), &InputMode::Search, &NORMAL_DISPLAY),
        Some(Action::SearchInput('='))
    );
    assert_eq!(
        map_key(key(KeyInput::Char('+')), &InputMode::Search, &NORMAL_DISPLAY),
        Some(Action::SearchInput('+'))
    );
}

#[test]
fn search_mode_ctrl_audio_keys_bypass_text_input() {
    assert_eq!(
        map_key(
            modified_key(KeyInput::Char('-'), Mods::CONTROL),
            &InputMode::Search,
            &NORMAL_DISPLAY
        ),
        Some(Action::VolumeDown)
    );
    assert_eq!(
        map_key(
            modified_key(KeyInput::Char('='), Mods::CONTROL),
            &InputMode::Search,
            &NORMAL_DISPLAY
        ),
        Some(Action::VolumeUp)
    );
    assert_eq!(
        map_key(
            modified_key(KeyInput::Char('+'), Mods::CONTROL),
            &InputMode::Search,
            &NORMAL_DISPLAY
        ),
        Some(Action::VolumeUp)
    );
    assert_eq!(
        map_key(
            modified_key(KeyInput::Char('m'), Mods::CONTROL),
            &InputMode::Search,
            &NORMAL_DISPLAY
        ),
        Some(Action::ToggleMute)
    );
}

#[test]
fn search_mode_alt_audio_keys_bypass_text_input() {
    assert_eq!(
        map_key(
            modified_key(KeyInput::Char('-'), Mods::ALT),
            &InputMode::Search,
            &NORMAL_DISPLAY
        ),
        Some(Action::VolumeDown)
    );
    assert_eq!(
        map_key(
            modified_key(KeyInput::Char('='), Mods::ALT),
            &InputMode::Search,
            &NORMAL_DISPLAY
        ),
        Some(Action::VolumeUp)
    );
    assert_eq!(
        map_key(
            modified_key(KeyInput::Char('m'), Mods::ALT),
            &InputMode::Search,
            &NORMAL_DISPLAY
        ),
        Some(Action::ToggleMute)
    );
}

#[test]
fn normal_mode_search_shortcuts_enter_search() {
    assert_eq!(
        map_key(key(KeyInput::Char('/')), &InputMode::Normal, &NORMAL_DISPLAY),
        Some(Action::EnterSearch)
    );
    assert_eq!(
        map_key(key(KeyInput::F(3)), &InputMode::Normal, &NORMAL_DISPLAY),
        Some(Action::EnterSearch)
    );
    assert_eq!(
        map_key(
            modified_key(KeyInput::Char('f'), Mods::CONTROL),
            &InputMode::Normal,
            &NORMAL_DISPLAY
        ),
        Some(Action::EnterSearch)
    );
}

#[test]
fn normal_mode_command_palette_shortcuts_open_palette() {
    assert_eq!(
        map_key(key(KeyInput::Char(':')), &InputMode::Normal, &NORMAL_DISPLAY),
        Some(Action::OpenCommandPalette)
    );
    assert_eq!(
        map_key(
            modified_key(KeyInput::Char('p'), Mods::CONTROL),
            &InputMode::Normal,
            &NORMAL_DISPLAY
        ),
        Some(Action::OpenCommandPalette)
    );
}

#[test]
fn command_palette_mode_maps_text_navigation_and_close() {
    assert_eq!(
        map_key(
            key(KeyInput::Char('s')),
            &InputMode::CommandPalette,
            &NORMAL_DISPLAY
        ),
        Some(Action::CommandPaletteInput('s'))
    );
    assert_eq!(
        map_key(
            key(KeyInput::Down),
            &InputMode::CommandPalette,
            &NORMAL_DISPLAY
        ),
        Some(Action::CommandPaletteNext)
    );
    assert_eq!(
        map_key(
            key(KeyInput::Up),
            &InputMode::CommandPalette,
            &NORMAL_DISPLAY
        ),
        Some(Action::CommandPalettePrev)
    );
    assert_eq!(
        map_key(
            key(KeyInput::Esc),
            &InputMode::CommandPalette,
            &NORMAL_DISPLAY
        ),
        Some(Action::CommandPaletteClose)
    );
}

#[test]
fn normal_mode_right_steps_setting_forward() {
    assert_eq!(
        map_key(key(KeyInput::Right), &InputMode::Normal, &NORMAL_DISPLAY),
        Some(Action::StepSettingForward)
    );
}

#[test]
fn normal_mode_left_steps_setting_backward() {
    assert_eq!(
        map_key(key(KeyInput::Left), &InputMode::Normal, &NORMAL_DISPLAY),
        Some(Action::StepSettingBackward)
    );
}

#[test]
fn normal_mode_l_steps_setting_forward() {
    assert_eq!(
        map_key(key(KeyInput::Char('l')), &InputMode::Normal, &NORMAL_DISPLAY),
        Some(Action::StepSettingForward)
    );
}

#[test]
fn normal_mode_a_steps_setting_backward() {
    assert_eq!(
        map_key(key(KeyInput::Char('a')), &InputMode::Normal, &NORMAL_DISPLAY),
        Some(Action::StepSettingBackward)
    );
}

#[test]
fn normal_mode_f_removes_library_selection() {
    assert_eq!(
        map_key(key(KeyInput::Char('f')), &InputMode::Normal, &NORMAL_DISPLAY),
        Some(Action::RemoveLibrarySelection)
    );
}

#[test]
fn normal_mode_u_undoes_library_removal() {
    assert_eq!(
        map_key(key(KeyInput::Char('u')), &InputMode::Normal, &NORMAL_DISPLAY),
        Some(Action::UndoRemoveLibrarySelection)
    );
}

#[test]
fn normal_mode_context_shortcuts_open_overlays_and_retry() {
    assert_eq!(
        map_key(key(KeyInput::Char('i')), &InputMode::Normal, &NORMAL_DISPLAY),
        Some(Action::ToggleStationDetails)
    );
    assert_eq!(
        map_key(key(KeyInput::Char('g')), &InputMode::Normal, &NORMAL_DISPLAY),
        Some(Action::ToggleRecentTracks)
    );
    assert_eq!(
        map_key(key(KeyInput::Char('r')), &InputMode::Normal, &NORMAL_DISPLAY),
        Some(Action::RetryStream)
    );
    assert_eq!(
        map_key(key(KeyInput::Char('d')), &InputMode::Normal, &NORMAL_DISPLAY),
        Some(Action::TogglePlaybackDoctor)
    );
}

#[test]
fn normal_mode_context_shortcuts_tolerate_non_control_modifiers() {
    assert_eq!(
        map_key(
            modified_key(KeyInput::Char('I'), Mods::SHIFT),
            &InputMode::Normal,
            &NORMAL_DISPLAY
        ),
        Some(Action::ToggleStationDetails)
    );
    assert_eq!(
        map_key(
            modified_key(KeyInput::Char('r'), Mods::ALT),
            &InputMode::Normal,
            &NORMAL_DISPLAY
        ),
        Some(Action::RetryStream)
    );
    assert_eq!(
        map_key(
            modified_key(KeyInput::Char('D'), Mods::SHIFT),
            &InputMode::Normal,
            &NORMAL_DISPLAY
        ),
        Some(Action::TogglePlaybackDoctor)
    );
}

#[test]
fn normal_mode_context_shortcuts_do_not_capture_control_combos() {
    assert_eq!(
        map_key(
            modified_key(KeyInput::Char('i'), Mods::CONTROL),
            &InputMode::Normal,
            &NORMAL_DISPLAY
        ),
        None
    );
    assert_eq!(
        map_key(
            modified_key(KeyInput::Char('g'), Mods::CONTROL),
            &InputMode::Normal,
            &NORMAL_DISPLAY
        ),
        None
    );
    assert_eq!(
        map_key(
            modified_key(KeyInput::Char('r'), Mods::CONTROL),
            &InputMode::Normal,
            &NORMAL_DISPLAY
        ),
        None
    );
    assert_eq!(
        map_key(
            modified_key(KeyInput::Char('d'), Mods::CONTROL),
            &InputMode::Normal,
            &NORMAL_DISPLAY
        ),
        None
    );
}

#[test]
fn search_mode_space_auditions_selected_result() {
    assert_eq!(
        map_key(key(KeyInput::Char(' ')), &InputMode::Search, &NORMAL_DISPLAY),
        Some(Action::SearchAudition)
    );
}

#[test]
fn search_mode_ctrl_enter_auditions_selected_result_when_supported() {
    assert_eq!(
        map_key(
            modified_key(KeyInput::Enter, Mods::CONTROL),
            &InputMode::Search,
            &NORMAL_DISPLAY
        ),
        Some(Action::SearchAudition)
    );
}

#[test]
fn search_mode_enter_adds_and_plays_selected_result() {
    assert_eq!(
        map_key(key(KeyInput::Enter), &InputMode::Search, &NORMAL_DISPLAY),
        Some(Action::SearchConfirm)
    );
}

#[test]
fn normal_mode_removed_legacy_keys_are_unmapped() {
    let removed_plain_keys = [
        KeyInput::Char('p'),
        KeyInput::Char('o'),
        KeyInput::Char('R'),
        KeyInput::Char('M'),
        KeyInput::Char('y'),
        KeyInput::Char('n'),
        KeyInput::Char('K'),
        KeyInput::Char('T'),
        KeyInput::Delete,
    ];
    for code in removed_plain_keys {
        assert_eq!(
            map_key(key(code), &InputMode::Normal, &NORMAL_DISPLAY),
            None
        );
    }
    assert_eq!(
        map_key(
            modified_key(KeyInput::Char('r'), Mods::CONTROL),
            &InputMode::Normal,
            &NORMAL_DISPLAY
        ),
        None
    );
}

#[test]
fn test_normal_mode_t_and_e_bindings() {
    assert_eq!(
        map_key(key(KeyInput::Char('t')), &InputMode::Normal, &NORMAL_DISPLAY),
        Some(Action::ToggleSleepTimer)
    );
    assert_eq!(
        map_key(key(KeyInput::Char('e')), &InputMode::Normal, &NORMAL_DISPLAY),
        Some(Action::ExportLibrary)
    );
}

#[test]
fn library_filter_mode_esc_exits() {
    assert_eq!(
        map_key(
            key(KeyInput::Esc),
            &InputMode::LibraryFilter,
            &NORMAL_DISPLAY
        ),
        Some(Action::ExitLibraryFilter)
    );
}

#[test]
fn library_filter_mode_enter_confirms() {
    assert_eq!(
        map_key(
            key(KeyInput::Enter),
            &InputMode::LibraryFilter,
            &NORMAL_DISPLAY
        ),
        Some(Action::LibraryFilterConfirm)
    );
}

#[test]
fn library_filter_mode_backspace_deletes() {
    assert_eq!(
        map_key(
            key(KeyInput::Backspace),
            &InputMode::LibraryFilter,
            &NORMAL_DISPLAY
        ),
        Some(Action::LibraryFilterBackspace)
    );
}

#[test]
fn library_filter_mode_printable_chars_are_input() {
    assert_eq!(
        map_key(
            key(KeyInput::Char('a')),
            &InputMode::LibraryFilter,
            &NORMAL_DISPLAY
        ),
        Some(Action::LibraryFilterInput('a'))
    );
    assert_eq!(
        map_key(
            key(KeyInput::Char('z')),
            &InputMode::LibraryFilter,
            &NORMAL_DISPLAY
        ),
        Some(Action::LibraryFilterInput('z'))
    );
    assert_eq!(
        map_key(
            key(KeyInput::Char('5')),
            &InputMode::LibraryFilter,
            &NORMAL_DISPLAY
        ),
        Some(Action::LibraryFilterInput('5'))
    );
    assert_eq!(
        map_key(
            key(KeyInput::Char(' ')),
            &InputMode::LibraryFilter,
            &NORMAL_DISPLAY
        ),
        Some(Action::LibraryFilterInput(' '))
    );
    assert_eq!(
        map_key(
            key(KeyInput::Char('-')),
            &InputMode::LibraryFilter,
            &NORMAL_DISPLAY
        ),
        Some(Action::LibraryFilterInput('-'))
    );
}

#[test]
fn library_filter_mode_j_navigates_next() {
    assert_eq!(
        map_key(
            key(KeyInput::Char('j')),
            &InputMode::LibraryFilter,
            &NORMAL_DISPLAY
        ),
        Some(Action::NextStation)
    );
}

#[test]
fn library_filter_mode_k_navigates_prev() {
    assert_eq!(
        map_key(
            key(KeyInput::Char('k')),
            &InputMode::LibraryFilter,
            &NORMAL_DISPLAY
        ),
        Some(Action::PrevStation)
    );
}

#[test]
fn library_filter_mode_up_navigates_prev() {
    assert_eq!(
        map_key(key(KeyInput::Up), &InputMode::LibraryFilter, &NORMAL_DISPLAY),
        Some(Action::PrevStation)
    );
}

#[test]
fn library_filter_mode_down_navigates_next() {
    assert_eq!(
        map_key(
            key(KeyInput::Down),
            &InputMode::LibraryFilter,
            &NORMAL_DISPLAY
        ),
        Some(Action::NextStation)
    );
}

#[test]
fn library_filter_mode_ctrl_c_quits() {
    assert_eq!(
        map_key(
            modified_key(KeyInput::Char('c'), Mods::CONTROL),
            &InputMode::LibraryFilter,
            &NORMAL_DISPLAY
        ),
        Some(Action::Quit)
    );
}

#[test]
fn library_filter_mode_unbound_keys_are_none() {
    assert_eq!(
        map_key(
            key(KeyInput::Tab),
            &InputMode::LibraryFilter,
            &NORMAL_DISPLAY
        ),
        None
    );
    assert_eq!(
        map_key(
            key(KeyInput::F(1)),
            &InputMode::LibraryFilter,
            &NORMAL_DISPLAY
        ),
        None
    );
    assert_eq!(
        map_key(
            key(KeyInput::Delete),
            &InputMode::LibraryFilter,
            &NORMAL_DISPLAY
        ),
        None
    );
}

#[test]
fn normal_mode_ctrl_l_enters_library_filter() {
    assert_eq!(
        map_key(
            modified_key(KeyInput::Char('l'), Mods::CONTROL),
            &InputMode::Normal,
            &NORMAL_DISPLAY
        ),
        Some(Action::EnterLibraryFilter)
    );
}

#[test]
fn normal_mode_alt_1_through_5_plays_slot() {
    for digit in 1u8..=5 {
        let c = (b'0' + digit) as char;
        assert_eq!(
            map_key(
                modified_key(KeyInput::Char(c), Mods::ALT),
                &InputMode::Normal,
                &NORMAL_DISPLAY
            ),
            Some(Action::PlaySlot(digit))
        );
    }
}

#[test]
fn normal_mode_star_toggles_favorite() {
    assert_eq!(
        map_key(key(KeyInput::Char('*')), &InputMode::Normal, &NORMAL_DISPLAY),
        Some(Action::ToggleFavorite)
    );
}

#[test]
fn normal_mode_digit_keys_produce_number_jump_digit() {
    for c in '0'..='9' {
        assert_eq!(
            map_key(key(KeyInput::Char(c)), &InputMode::Normal, &NORMAL_DISPLAY),
            Some(Action::NumberJumpDigit(c))
        );
    }
}

#[test]
fn normal_mode_uppercase_g_confirms_number_jump() {
    assert_eq!(
        map_key(
            modified_key(KeyInput::Char('G'), Mods::SHIFT),
            &InputMode::Normal,
            &NORMAL_DISPLAY
        ),
        Some(Action::NumberJumpConfirm)
    );
}

#[test]
fn normal_mode_digit_keys_with_ctrl_are_not_number_jump() {
    for c in ['0', '6', '7', '8', '9'] {
        assert_eq!(
            map_key(
                modified_key(KeyInput::Char(c), Mods::CONTROL),
                &InputMode::Normal,
                &NORMAL_DISPLAY
            ),
            None
        );
    }
}

#[test]
fn normal_mode_ctrl_1_through_5_assign_slot() {
    for digit in 1u8..=5 {
        let c = (b'0' + digit) as char;
        assert_eq!(
            map_key(
                modified_key(KeyInput::Char(c), Mods::CONTROL),
                &InputMode::Normal,
                &NORMAL_DISPLAY
            ),
            Some(Action::AssignSlot(digit))
        );
    }
}

#[test]
fn normal_mode_digit_keys_with_alt_beyond_5_are_not_mapped() {
    for c in ['6', '7', '8', '9'] {
        assert_eq!(
            map_key(
                modified_key(KeyInput::Char(c), Mods::ALT),
                &InputMode::Normal,
                &NORMAL_DISPLAY
            ),
            None
        );
    }
}

#[test]
fn normal_mode_lowercase_g_still_toggles_recent_tracks() {
    assert_eq!(
        map_key(key(KeyInput::Char('g')), &InputMode::Normal, &NORMAL_DISPLAY),
        Some(Action::ToggleRecentTracks)
    );
}

#[test]
fn normal_mode_f6_toggles_mini_mode() {
    assert_eq!(
        map_key(key(KeyInput::F(6)), &InputMode::Normal, &NORMAL_DISPLAY),
        Some(Action::ToggleMiniMode)
    );
}

#[test]
fn library_filter_mode_f6_toggles_mini_mode() {
    assert_eq!(
        map_key(
            key(KeyInput::F(6)),
            &InputMode::LibraryFilter,
            &NORMAL_DISPLAY
        ),
        Some(Action::ToggleMiniMode)
    );
}
