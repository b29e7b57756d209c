//! Key bindings: the key specifications, modifiers and input modes, and the
//! parsing of their textual forms.

pub mod defaults;
pub mod registry;
pub mod watcher;

use vstd::prelude::*;
use crate::action::Action;
use crate::text::{
    ascii_lower, chars_ascii_lower, lowercase, parse_unsigned, parse_unsigned_chars, slice_range,
    str_chars, str_eq_chars, str_trim, string_from_chars, to_lowercase, trim,
};

pub use registry::{parse_action_name, KeybindingRegistry, RawEntry};

verus! {

/// Input mode for keybinding resolution.
#[derive(Debug, Clone, Copy, PartialEq, Eq, Hash, Structural)]
pub enum InputMode {
    Normal,
    Search,
    CommandPalette,
    SleepTimer,
    LibraryFilter,
}

/// Key specification: a character, a function key or a named key.
#[derive(Debug, Clone, Copy, PartialEq, Eq, Hash, Structural)]
pub enum KeySpec {
    Char(char),
    Function(u8),
    Named(NamedKey),
}

/// Named keys (non-character, non-function).
#[derive(Debug, Clone, Copy, PartialEq, Eq, Hash, Structural)]
pub enum NamedKey {
    Enter,
    Esc,
    Up,
    Down,
    Left,
    Right,
    Tab,
    Backspace,
    Home,
    End,
    PageUp,
    PageDown,
    Delete,
    Insert,
}

/// Keyboard modifier keys.
#[derive(Debug, Clone, Copy, PartialEq, Eq, Hash, Structural)]
pub enum Modifier {
    Ctrl,
    Alt,
    Shift,
}

/// A single key binding.
#[derive(Debug, Clone, PartialEq, Eq)]
pub struct KeyBinding {
    pub key: KeySpec,
    pub modifiers: Vec<Modifier>,
    pub action: Action,
    pub mode: InputMode,
}

pub struct KeyBindingView {
    pub key: KeySpec,
    pub modifiers: Seq<Modifier>,
    pub action: Action,
    pub mode: InputMode,
}

impl View for KeyBinding {
    type V = KeyBindingView;

    open spec fn view(&self) -> KeyBindingView {
        KeyBindingView {
            key: self.key,
            modifiers: self.modifiers@,
            action: self.action,
            mode: self.mode,
        }
    }
}

pub open spec fn bindings_view(s: Seq<KeyBinding>) -> Seq<KeyBindingView> {
    s.map_values(|b: KeyBinding| b@)
}

/// The character of a `char(x)` specification: the text starts with
/// `char(` in any ASCII case, ends with `)`, and holds exactly one
/// character in between.
pub open spec fn char_spec(t: Seq<char>) -> Option<char> {
    if t.len() >= 5 && ascii_lower(t.take(5)) == "char("@ && t.len() >= 6 && t.last() == ')'
        && t.len() == 7 {
        Some(t[5])
    } else {
        None
    }
}

/// `f1` to `f12` (already lowercase): the function key number.
pub open spec fn function_key(lower: Seq<char>) -> Option<u8> {
    if lower.len() > 0 && lower[0] == 'f' {
        match parse_unsigned(lower.drop_first(), 255) {
            Some(n) => if 1 <= n && n <= 12 {
                Some(n as u8)
            } else {
                None
            },
            None => None,
        }
    } else {
        None
    }
}

/// The named key of a lowercase name.
pub open spec fn named_key(lower: Seq<char>) -> Option<NamedKey> {
    if lower == "enter"@ {
        Some(NamedKey::Enter)
    } else if lower == "esc"@ {
        Some(NamedKey::Esc)
    } else if lower == "up"@ {
        Some(NamedKey::Up)
    } else if lower == "down"@ {
        Some(NamedKey::Down)
    } else if lower == "left"@ {
        Some(NamedKey::Left)
    } else if lower == "right"@ {
        Some(NamedKey::Right)
    } else if lower == "tab"@ {
        Some(NamedKey::Tab)
    } else if lower == "backspace"@ {
        Some(NamedKey::Backspace)
    } else if lower == "home"@ {
        Some(NamedKey::Home)
    } else if lower == "end"@ {
        Some(NamedKey::End)
    } else if lower == "pageup"@ {
        Some(NamedKey::PageUp)
    } else if lower == "pagedown"@ {
        Some(NamedKey::PageDown)
    } else if lower == "delete"@ {
        Some(NamedKey::Delete)
    } else if lower == "insert"@ {
        Some(NamedKey::Insert)
    } else {
        None
    }
}

/// The key that a textual specification names: `char(x)`, then `f1`..`f12`,
/// then a named key, matched on the trimmed text (case-insensitively).
pub open spec fn key_spec_of(input: Seq<char>) -> Option<KeySpec> {
    let t = trim(input);
    match char_spec(t) {
        Some(c) => Some(KeySpec::Char(c)),
        None => {
            let lower = lowercase(t);
            match function_key(lower) {
                Some(n) => Some(KeySpec::Function(n)),
                None => match named_key(lower) {
                    Some(k) => Some(KeySpec::Named(k)),
                    None => None,
                },
            }
        },
    }
}

/// Parses `char(x)`, `enter`, `esc`, arrows, `tab`, `backspace`, `home`,
/// `end`, `pageup`, `pagedown`, `delete`, `insert`, `f1`–`f12`.
///
/// The `char(` prefix and `)` suffix are matched ignoring ASCII case: no
/// other character lowercases to these ASCII characters, so this is the
/// same test as on the Unicode lowercase form.
pub fn parse_key_spec(input: &str) -> (r: Option<KeySpec>)
    ensures
        r == key_spec_of(input@),
{
    let t = str_trim(input);
    if let Some(c) = extract_char_spec(t.as_slice()) {
        return Some(KeySpec::Char(c));
    }
    let ts = string_from_chars(t.as_slice());
    let lower = to_lowercase(ts.as_str());
    let lower = str_chars(lower.as_str());
    if let Some(n) = extract_function_key(lower.as_slice()) {
        return Some(KeySpec::Function(n));
    }
    match parse_named_key(lower.as_slice()) {
        Some(k) => Some(KeySpec::Named(k)),
        None => None,
    }
}

pub fn extract_char_spec(t: &[char]) -> (r: Option<char>)
    ensures
        r == char_spec(t@),
{
    if t.len() < 7 {
        return None;
    }
    let head = slice_range(t, 0, 5);
    assert(head@ =~= t@.take(5));
    let head_lower = chars_ascii_lower(head.as_slice());
    if !str_eq_chars("char(", head_lower.as_slice()) || t[t.len() - 1] != ')' {
        return None;
    }
    if t.len() != 7 {
        return None;
    }
    Some(t[5])
}

pub fn extract_function_key(lower: &[char]) -> (r: Option<u8>)
    ensures
        r == function_key(lower@),
{
    if lower.len() == 0 || lower[0] != 'f' {
        return None;
    }
    let rest = slice_range(lower, 1, lower.len());
    assert(rest@ =~= lower@.drop_first());
    match parse_unsigned_chars(rest.as_slice(), 255) {
        Some(n) => if 1 <= n && n <= 12 {
            Some(n as u8)
        } else {
            None
        },
        None => None,
    }
}

pub fn parse_named_key(lower: &[char]) -> (r: Option<NamedKey>)
    ensures
        r == named_key(lower@),
{
    if str_eq_chars("enter", lower) {
        Some(NamedKey::Enter)
    } else if str_eq_chars("esc", lower) {
        Some(NamedKey::Esc)
    } else if str_eq_chars("up", lower) {
        Some(NamedKey::Up)
    } else if str_eq_chars("down", lower) {
        Some(NamedKey::Down)
    } else if str_eq_chars("left", lower) {
        Some(NamedKey::Left)
    } else if str_eq_chars("right", lower) {
        Some(NamedKey::Right)
    } else if str_eq_chars("tab", lower) {
        Some(NamedKey::Tab)
    } else if str_eq_chars("backspace", lower) {
        Some(NamedKey::Backspace)
    } else if str_eq_chars("home", lower) {
        Some(NamedKey::Home)
    } else if str_eq_chars("end", lower) {
        Some(NamedKey::End)
    } else if str_eq_chars("pageup", lower) {
        Some(NamedKey::PageUp)
    } else if str_eq_chars("pagedown", lower) {
        Some(NamedKey::PageDown)
    } else if str_eq_chars("delete", lower) {
        Some(NamedKey::Delete)
    } else if str_eq_chars("insert", lower) {
        Some(NamedKey::Insert)
    } else {
        None
    }
}

/// The modifier that a (trimmed, lowercase) name denotes.
pub open spec fn modifier_named(lower: Seq<char>) -> Option<Modifier> {
    if lower == "ctrl"@ {
        Some(Modifier::Ctrl)
    } else if lower == "alt"@ {
        Some(Modifier::Alt)
    } else if lower == "shift"@ {
        Some(Modifier::Shift)
    } else {
        None
    }
}

/// Parses `ctrl`, `alt` or `shift`, trimmed and case-insensitively.
pub fn parse_modifier(input: &str) -> (r: Option<Modifier>)
    ensures
        r == modifier_named(lowercase(trim(input@))),
{
    let t = str_trim(input);
    let ts = string_from_chars(t.as_slice());
    let lower = to_lowercase(ts.as_str());
    let l = str_chars(lower.as_str());
    let l = l.as_slice();
    if str_eq_chars("ctrl", l) {
        Some(Modifier::Ctrl)
    } else if str_eq_chars("alt", l) {
        Some(Modifier::Alt)
    } else if str_eq_chars("shift", l) {
        Some(Modifier::Shift)
    } else {
        None
    }
}

/// Every character key written as `char(x)` reads back as that key, for any
/// character `x` (white space and parentheses included).
pub proof fn lemma_char_key_round_trip(c: char)
    ensures
        key_spec_of("char("@ + seq![c] + ")"@) == Some(KeySpec::Char(c)),
{
    reveal_strlit("char(");
    reveal_strlit(")");
    let t = "char("@ + seq![c] + ")"@;
    assert(t =~= seq!['c', 'h', 'a', 'r', '(', c, ')']);
    assert(crate::text::trim_start(t) == t);
    assert(crate::text::trim_end(t) == t);
    assert(t.take(5) =~= "char("@);
    assert(crate::text::ascii_lower(t.take(5)) =~= "char("@);
}

} // verus!
