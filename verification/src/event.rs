//! From a key press to an action: the keybinding registry first, then the
//! catch-all character input of the text-entry modes. Mini display mode has
//! a small fixed table of its own.

use vstd::prelude::*;
use crate::action::Action;
use crate::keybindings::registry::{resolved, KeybindingRegistry};
use crate::keybindings::{bindings_view, InputMode, KeySpec, Modifier, NamedKey};

verus! {

/// The key of a key press, as the terminal reports it.
#[derive(Debug, Clone, Copy, PartialEq, Eq, Structural)]
pub enum KeyInput {
    Char(char),
    F(u8),
    Enter,
    Esc,
    Up,
    Down,
    Left,
    Right,
    Tab,
    BackTab,
    Backspace,
    Home,
    End,
    PageUp,
    PageDown,
    Delete,
    Insert,
    /// Any other key.
    Other,
}

/// A keyboard event: the key, the modifiers held, and whether it is a press
/// (rather than a repeat or release).
#[derive(Debug, Clone, Copy, PartialEq, Eq, Structural)]
pub struct KeyPress {
    pub code: KeyInput,
    pub ctrl: bool,
    pub alt: bool,
    pub shift: bool,
    pub is_press: bool,
}

/// How the interface is laid out.
#[derive(Debug, Clone, Copy, PartialEq, Eq, Structural)]
pub enum DisplayMode {
    Normal,
    Mini,
}

/// The key spec of a key; keys without one are never bound.
pub open spec fn key_spec_of_input(code: KeyInput) -> Option<KeySpec> {
    match code {
        KeyInput::Char(c) => Some(KeySpec::Char(c)),
        KeyInput::F(n) => Some(KeySpec::Function(n)),
        KeyInput::Enter => Some(KeySpec::Named(NamedKey::Enter)),
        KeyInput::Esc => Some(KeySpec::Named(NamedKey::Esc)),
        KeyInput::Up => Some(KeySpec::Named(NamedKey::Up)),
        KeyInput::Down => Some(KeySpec::Named(NamedKey::Down)),
        KeyInput::Left => Some(KeySpec::Named(NamedKey::Left)),
        KeyInput::Right => Some(KeySpec::Named(NamedKey::Right)),
        KeyInput::Tab => Some(KeySpec::Named(NamedKey::Tab)),
        KeyInput::BackTab => Some(KeySpec::Named(NamedKey::Tab)),
        KeyInput::Backspace => Some(KeySpec::Named(NamedKey::Backspace)),
        KeyInput::Home => Some(KeySpec::Named(NamedKey::Home)),
        KeyInput::End => Some(KeySpec::Named(NamedKey::End)),
        KeyInput::PageUp => Some(KeySpec::Named(NamedKey::PageUp)),
        KeyInput::PageDown => Some(KeySpec::Named(NamedKey::PageDown)),
        KeyInput::Delete => Some(KeySpec::Named(NamedKey::Delete)),
        KeyInput::Insert => Some(KeySpec::Named(NamedKey::Insert)),
        KeyInput::Other => None,
    }
}

/// The held modifiers, in the order Ctrl, Alt, Shift.
pub open spec fn modifiers_of_press(k: KeyPress) -> Seq<Modifier> {
    (if k.ctrl { seq![Modifier::Ctrl] } else { Seq::empty() }) + (if k.alt {
        seq![Modifier::Alt]
    } else {
        Seq::empty()
    }) + (if k.shift { seq![Modifier::Shift] } else { Seq::empty() })
}

/// The fixed table of Mini display mode.
pub open spec fn mini_mode_action(k: KeyPress) -> Option<Action> {
    match k.code {
        KeyInput::Char(' ') => Some(Action::TogglePause),
        KeyInput::Char('+') => Some(Action::VolumeUp),
        KeyInput::Char('=') => Some(Action::VolumeUp),
        KeyInput::Char('-') => Some(Action::VolumeDown),
        KeyInput::Char('s') => Some(Action::Stop),
        KeyInput::Char('q') => Some(Action::Quit),
        KeyInput::Char('c') => if k.ctrl { Some(Action::Quit) } else { None },
        KeyInput::Char('m') => Some(Action::ToggleMute),
        KeyInput::F(6) => Some(Action::ToggleMiniMode),
        _ => None,
    }
}

/// Characters typed into the text-entry modes; plain digits in normal mode
/// start a jump to a numbered row.
pub open spec fn char_input_action(k: KeyPress, mode: InputMode) -> Option<Action> {
    match k.code {
        KeyInput::Char(c) => match mode {
            InputMode::Search => if !(k.ctrl || k.alt) { Some(Action::SearchInput(c)) } else { None },
            InputMode::CommandPalette => Some(Action::CommandPaletteInput(c)),
            InputMode::LibraryFilter => Some(Action::LibraryFilterInput(c)),
            InputMode::Normal => if '0' <= c && c <= '9' && !k.ctrl && !k.alt {
                Some(Action::NumberJumpDigit(c))
            } else {
                None
            },
            InputMode::SleepTimer => None,
        },
        _ => None,
    }
}

/// The action of a key press: none unless it is a press; the Mini table in
/// Mini display mode's normal input; else the registry, then character input.
pub open spec fn key_action(k: KeyPress, mode: InputMode, display: DisplayMode, customs: Seq<crate::keybindings::KeyBindingView>, defaults: Seq<crate::keybindings::KeyBindingView>) -> Option<Action> {
    if !k.is_press {
        None
    } else if display == DisplayMode::Mini && mode == InputMode::Normal {
        mini_mode_action(k)
    } else {
        let from_registry = match key_spec_of_input(k.code) {
            Some(spec) => resolved(customs, defaults, spec, modifiers_of_press(k), mode),
            None => None,
        };
        match from_registry {
            Some(a) => Some(a),
            None => char_input_action(k, mode),
        }
    }
}

/// The key spec of a key.
pub fn key_code_to_spec(code: KeyInput) -> (r: Option<KeySpec>)
    ensures
        r == key_spec_of_input(code),
{
    match code {
        KeyInput::Char(c) => Some(KeySpec::Char(c)),
        KeyInput::F(n) => Some(KeySpec::Function(n)),
        KeyInput::Enter => Some(KeySpec::Named(NamedKey::Enter)),
        KeyInput::Esc => Some(KeySpec::Named(NamedKey::Esc)),
        KeyInput::Up => Some(KeySpec::Named(NamedKey::Up)),
        KeyInput::Down => Some(KeySpec::Named(NamedKey::Down)),
        KeyInput::Left => Some(KeySpec::Named(NamedKey::Left)),
        KeyInput::Right => Some(KeySpec::Named(NamedKey::Right)),
        KeyInput::Tab => Some(KeySpec::Named(NamedKey::Tab)),
        KeyInput::BackTab => Some(KeySpec::Named(NamedKey::Tab)),
        KeyInput::Backspace => Some(KeySpec::Named(NamedKey::Backspace)),
        KeyInput::Home => Some(KeySpec::Named(NamedKey::Home)),
        KeyInput::End => Some(KeySpec::Named(NamedKey::End)),
        KeyInput::PageUp => Some(KeySpec::Named(NamedKey::PageUp)),
        KeyInput::PageDown => Some(KeySpec::Named(NamedKey::PageDown)),
        KeyInput::Delete => Some(KeySpec::Named(NamedKey::Delete)),
        KeyInput::Insert => Some(KeySpec::Named(NamedKey::Insert)),
        KeyInput::Other => None,
    }
}

/// The held modifiers as a list, in the order Ctrl, Alt, Shift.
pub fn key_modifiers_to_vec(key: &KeyPress) -> (r: Vec<Modifier>)
    ensures
        r@ == modifiers_of_press(*key),
{
    let mut result: Vec<Modifier> = Vec::new();
    if key.ctrl {
        result.push(Modifier::Ctrl);
    }
    if key.alt {
        result.push(Modifier::Alt);
    }
    if key.shift {
        result.push(Modifier::Shift);
    }
    assert(result@ =~= modifiers_of_press(*key));
    result
}

/// The Mini display mode table.
pub fn map_mini_mode_key(key: &KeyPress) -> (r: Option<Action>)
    ensures
        r == mini_mode_action(*key),
{
    match key.code {
        KeyInput::Char(' ') => Some(Action::TogglePause),
        KeyInput::Char('+') => Some(Action::VolumeUp),
        KeyInput::Char('=') => Some(Action::VolumeUp),
        KeyInput::Char('-') => Some(Action::VolumeDown),
        KeyInput::Char('s') => Some(Action::Stop),
        KeyInput::Char('q') => Some(Action::Quit),
        KeyInput::Char('c') => if key.ctrl { Some(Action::Quit) } else { None },
        KeyInput::Char('m') => Some(Action::ToggleMute),
        KeyInput::F(6) => Some(Action::ToggleMiniMode),
        _ => None,
    }
}

/// Character input of the text-entry modes, which no single binding can
/// express.
pub fn char_input_fallback(key: &KeyPress, mode: &InputMode) -> (r: Option<Action>)
    ensures
        r == char_input_action(*key, *mode),
{
    let c = match key.code {
        KeyInput::Char(c) => c,
        _ => return None,
    };
    match mode {
        InputMode::Search => if !(key.ctrl || key.alt) { Some(Action::SearchInput(c)) } else { None },
        InputMode::CommandPalette => Some(Action::CommandPaletteInput(c)),
        InputMode::LibraryFilter => Some(Action::LibraryFilterInput(c)),
        InputMode::Normal => if '0' <= c && c <= '9' && !key.ctrl && !key.alt {
            Some(Action::NumberJumpDigit(c))
        } else {
            None
        },
        InputMode::SleepTimer => None,
    }
}

/// The action of a key press in the given modes.
pub fn map_key_with_registry(key: &KeyPress, mode: &InputMode, display: &DisplayMode, registry: &KeybindingRegistry) -> (r: Option<Action>)
    ensures
        r == key_action(*key, *mode, *display, bindings_view(registry.customs@), bindings_view(registry.defaults@)),
{
    if !key.is_press {
        return None;
    }
    if *display == DisplayMode::Mini && *mode == InputMode::Normal {
        return map_mini_mode_key(key);
    }
    let from_registry = match key_code_to_spec(key.code) {
        Some(spec) => {
            let modifiers = key_modifiers_to_vec(key);
            registry.resolve(&spec, modifiers.as_slice(), mode)
        },
        None => None,
    };
    match from_registry {
        Some(a) => Some(a),
        None => char_input_fallback(key, mode),
    }
}

/// A key release or repeat never triggers an action.
pub proof fn lemma_only_presses_act(k: KeyPress, mode: InputMode, display: DisplayMode, customs: Seq<crate::keybindings::KeyBindingView>, defaults: Seq<crate::keybindings::KeyBindingView>)
    requires
        !k.is_press,
    ensures
        key_action(k, mode, display, customs, defaults) is None,
{
}

/// In the search box a plain character that no binding claims is typed as
/// search text.
pub proof fn lemma_unbound_char_is_search_text(k: KeyPress, c: char, display: DisplayMode, customs: Seq<crate::keybindings::KeyBindingView>, defaults: Seq<crate::keybindings::KeyBindingView>)
    requires
        k.is_press,
        k.code == KeyInput::Char(c),
        !k.ctrl,
        !k.alt,
        resolved(customs, defaults, KeySpec::Char(c), modifiers_of_press(k), InputMode::Search) is None,
    ensures
        key_action(k, InputMode::Search, display, customs, defaults) == Some(Action::SearchInput(c)),
{
}

} // verus!
