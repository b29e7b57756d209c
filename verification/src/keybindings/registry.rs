//! The key binding registry: custom bindings over the defaults, and the
//! validation of binding entries read from the keybindings file.

use vstd::prelude::*;
use crate::action::Action;
use crate::keybindings::{
    bindings_view, key_spec_of, modifier_named, parse_key_spec, parse_modifier, InputMode,
    KeyBinding, KeyBindingView, KeySpec, Modifier,
};
use crate::text::{
    decimal, ends_with, find, find_chars, first_occurrence, lowercase, occurs_at, parse_unsigned,
    parse_unsigned_chars, slice_range, str_chars, str_eq_chars, string_from_chars, trim,
    u64_decimal,
};

verus! {

/// At most this many custom bindings are kept.
pub const MAX_BINDINGS: usize = 512;

/// The binding modifiers and the pressed modifiers are the same set.
pub open spec fn modifiers_equal(a: Seq<Modifier>, b: Seq<Modifier>) -> bool {
    a.to_set() == b.to_set()
}

fn contains_modifier(v: &[Modifier], m: Modifier) -> (r: bool)
    ensures
        r == v@.contains(m),
{
    let mut i: usize = 0;
    while i < v.len()
        invariant
            i <= v.len(),
            forall|j: int| 0 <= j < i ==> v@[j] != m,
        decreases v.len() - i,
    {
        if v[i] == m {
            return true;
        }
        i += 1;
    }
    false
}

/// Order-independent modifier comparison.
pub fn modifiers_match(binding_mods: &[Modifier], event_mods: &[Modifier]) -> (r: bool)
    ensures
        r == modifiers_equal(binding_mods@, event_mods@),
{
    let all: [Modifier; 3] = [Modifier::Ctrl, Modifier::Alt, Modifier::Shift];
    let mut k: usize = 0;
    while k < 3
        invariant
            k <= 3,
            all@ == seq![Modifier::Ctrl, Modifier::Alt, Modifier::Shift],
            forall|j: int| 0 <= j < k ==> (binding_mods@.contains(#[trigger] all@[j]) == event_mods@.contains(all@[j])),
        decreases 3 - k,
    {
        if contains_modifier(binding_mods, all[k]) != contains_modifier(event_mods, all[k]) {
            assert(binding_mods@.to_set().contains(all@[k as int]) != event_mods@.to_set().contains(all@[k as int]));
            return false;
        }
        k += 1;
    }
    assert(binding_mods@.to_set() =~= event_mods@.to_set()) by {
        assert forall|m: Modifier| binding_mods@.to_set().contains(m) == event_mods@.to_set().contains(m) by {
            match m {
                Modifier::Ctrl => assert(all@[0] == m),
                Modifier::Alt => assert(all@[1] == m),
                Modifier::Shift => assert(all@[2] == m),
            }
        }
    }
    true
}

/// A binding applies to a key press in a mode.
pub open spec fn binding_applies(b: KeyBindingView, key: KeySpec, mods: Seq<Modifier>, mode: InputMode) -> bool {
    b.key == key && b.mode == mode && modifiers_equal(b.modifiers, mods)
}

/// The action of the last binding of `bindings` that applies.
pub open spec fn last_match(bindings: Seq<KeyBindingView>, key: KeySpec, mods: Seq<Modifier>, mode: InputMode) -> Option<Action>
    decreases bindings.len(),
{
    if bindings.len() == 0 {
        None
    } else if binding_applies(bindings.last(), key, mods, mode) {
        Some(bindings.last().action)
    } else {
        last_match(bindings.drop_last(), key, mods, mode)
    }
}

/// The action a key press resolves to: the last custom binding that applies,
/// else the last default binding that applies.
pub open spec fn resolved(
    customs: Seq<KeyBindingView>,
    defaults: Seq<KeyBindingView>,
    key: KeySpec,
    mods: Seq<Modifier>,
    mode: InputMode,
) -> Option<Action> {
    match last_match(customs, key, mods, mode) {
        Some(a) => Some(a),
        None => last_match(defaults, key, mods, mode),
    }
}

/// A custom binding added last decides its own key press, whatever the
/// defaults and the earlier custom bindings say of it.
pub proof fn lemma_last_custom_binding_wins(
    customs: Seq<KeyBindingView>,
    defaults: Seq<KeyBindingView>,
    b: KeyBindingView,
    mods: Seq<Modifier>,
)
    requires
        modifiers_equal(b.modifiers, mods),
    ensures
        resolved(customs.push(b), defaults, b.key, mods, b.mode) == Some(b.action),
{
    assert(customs.push(b).last() == b);
}

/// A binding of one mode does not change what a key press resolves to in
/// another mode.
pub proof fn lemma_mode_isolation(
    customs: Seq<KeyBindingView>,
    defaults: Seq<KeyBindingView>,
    b: KeyBindingView,
    key: KeySpec,
    mods: Seq<Modifier>,
    mode: InputMode,
)
    requires
        b.mode != mode,
    ensures
        resolved(customs.push(b), defaults, key, mods, mode) == resolved(customs, defaults, key, mods, mode),
        resolved(customs, defaults.push(b), key, mods, mode) == resolved(customs, defaults, key, mods, mode),
{
    assert(customs.push(b).drop_last() =~= customs);
    assert(defaults.push(b).drop_last() =~= defaults);
}

/// The order in which the pressed modifiers are listed does not matter.
pub proof fn lemma_modifier_order_independent(
    bindings: Seq<KeyBindingView>,
    key: KeySpec,
    mods1: Seq<Modifier>,
    mods2: Seq<Modifier>,
    mode: InputMode,
)
    requires
        mods1.to_set() == mods2.to_set(),
    ensures
        last_match(bindings, key, mods1, mode) == last_match(bindings, key, mods2, mode),
    decreases bindings.len(),
{
    if bindings.len() > 0 {
        lemma_modifier_order_independent(bindings.drop_last(), key, mods1, mods2, mode);
    }
}

/// The default and custom bindings.
pub struct KeybindingRegistry {
    pub defaults: Vec<KeyBinding>,
    pub customs: Vec<KeyBinding>,
}

impl KeybindingRegistry {
    /// A registry with the given defaults and no custom bindings.
    pub fn new_with_defaults(defaults: Vec<KeyBinding>) -> (r: Self)
        ensures
            r.defaults == defaults,
            r.customs@.len() == 0,
    {
        KeybindingRegistry { defaults, customs: Vec::new() }
    }

    /// A registry without bindings.
    pub fn empty() -> (r: Self)
        ensures
            r.defaults@.len() == 0,
            r.customs@.len() == 0,
    {
        KeybindingRegistry { defaults: Vec::new(), customs: Vec::new() }
    }

    /// The action of a key press: custom bindings are searched last to
    /// first, then the defaults last to first.
    pub fn resolve(&self, key: &KeySpec, modifiers: &[Modifier], mode: &InputMode) -> (r: Option<Action>)
        ensures
            r == resolved(bindings_view(self.customs@), bindings_view(self.defaults@), *key, modifiers@, *mode),
    {
        if let Some(action) = Self::find_match(&self.customs, key, modifiers, mode) {
            return Some(action);
        }
        Self::find_match(&self.defaults, key, modifiers, mode)
    }

    /// The action of the last binding that applies.
    pub fn find_match(bindings: &[KeyBinding], key: &KeySpec, modifiers: &[Modifier], mode: &InputMode) -> (r: Option<Action>)
        ensures
            r == last_match(bindings_view(bindings@), *key, modifiers@, *mode),
    {
        let ghost bv = bindings_view(bindings@);
        let mut i: usize = bindings.len();
        assert(bv.take(bindings.len() as int) =~= bv);
        while i > 0
            invariant
                i <= bindings.len(),
                bv == bindings_view(bindings@),
                last_match(bv, *key, modifiers@, *mode) == last_match(bv.take(i as int), *key, modifiers@, *mode),
            decreases i,
        {
            let b = &bindings[i - 1];
            assert(bv.take(i as int).last() == b@);
            assert(bv.take(i as int).drop_last() =~= bv.take(i - 1));
            if b.key == *key && b.mode == *mode && modifiers_match(b.modifiers.as_slice(), modifiers) {
                return Some(b.action);
            }
            i -= 1;
        }
        None
    }
}

/// The bindings of the valid entries, in order.
pub open spec fn valid_bindings(entries: Seq<RawEntry>) -> Seq<KeyBindingView>
    decreases entries.len(),
{
    if entries.len() == 0 {
        Seq::empty()
    } else {
        let prev = valid_bindings(entries.drop_last());
        match raw_entry_binding(entries.last()) {
            Ok(b) => prev.push(b),
            Err(_) => prev,
        }
    }
}

/// The reasons of the invalid entries, in order.
pub open spec fn entry_errors(entries: Seq<RawEntry>) -> Seq<Seq<char>>
    decreases entries.len(),
{
    if entries.len() == 0 {
        Seq::empty()
    } else {
        let prev = entry_errors(entries.drop_last());
        match raw_entry_binding(entries.last()) {
            Ok(_) => prev,
            Err(e) => prev.push(e),
        }
    }
}

/// The warning given when more than `MAX_BINDINGS` bindings were read.
pub open spec fn truncation_warning(count: nat) -> Seq<char> {
    "Keybindings truncated from "@ + decimal(count) + " to 512"@
}

/// The warning given when the keybindings file is not a JSON array of entries.
pub open spec fn malformed_warning(err: Seq<char>) -> Seq<char> {
    "Malformed keybindings JSON: "@ + err
}

pub open spec fn strings_view(v: Seq<String>) -> Seq<Seq<char>> {
    v.map_values(|s: String| s@)
}

/// The custom bindings kept from the valid ones.
pub open spec fn kept_bindings(valid: Seq<KeyBindingView>) -> Seq<KeyBindingView> {
    if valid.len() > MAX_BINDINGS { valid.take(MAX_BINDINGS as int) } else { valid }
}

/// The warnings of a list of entries: one per invalid entry, then one if the
/// valid ones were truncated.
pub open spec fn entries_warnings(entries: Seq<RawEntry>) -> Seq<Seq<char>> {
    let valid = valid_bindings(entries);
    entry_errors(entries) + if valid.len() > MAX_BINDINGS {
        seq![truncation_warning(valid.len())]
    } else {
        Seq::empty()
    }
}

fn push_string(warnings: &mut Vec<String>, msg: String)
    ensures
        strings_view(final(warnings)@) == strings_view(old(warnings)@).push(msg@),
{
    warnings.push(msg);
    assert(strings_view(warnings@) =~= strings_view(old(warnings)@).push(msg@));
}

impl KeybindingRegistry {
    /// A registry of the custom bindings of the entries read from the
    /// keybindings file (`Err` where the file is not a JSON array of entries,
    /// with the parser's message). Invalid entries are skipped, with a warning
    /// each; more than `MAX_BINDINGS` valid ones are truncated, with a warning.
    pub fn from_parsed_entries(parsed: Result<Vec<RawEntry>, String>, warnings: &mut Vec<String>) -> (r: Self)
        ensures
            r.defaults@.len() == 0,
            match parsed {
                Err(e) => {
                    &&& r.customs@.len() == 0
                    &&& strings_view(final(warnings)@) == strings_view(old(warnings)@).push(malformed_warning(e@))
                },
                Ok(entries) => {
                    &&& bindings_view(r.customs@) == kept_bindings(valid_bindings(entries@))
                    &&& strings_view(final(warnings)@) == strings_view(old(warnings)@) + entries_warnings(entries@)
                },
            },
    {
        let entries = match parsed {
            Ok(entries) => entries,
            Err(err) => {
                let mut msg = str_chars("Malformed keybindings JSON: ");
                let ec = str_chars(err.as_str());
                let mut i: usize = 0;
                let ghost start = msg@;
                while i < ec.len()
                    invariant
                        i <= ec.len(),
                        msg@ == start + ec@.take(i as int),
                    decreases ec.len() - i,
                {
                    msg.push(ec[i]);
                    assert(ec@.take(i + 1) =~= ec@.take(i as int).push(ec@[i as int]));
                    i += 1;
                }
                assert(ec@.take(ec.len() as int) =~= ec@);
                push_string(warnings, string_from_chars(msg.as_slice()));
                return Self::empty();
            }
        };
        let mut customs: Vec<KeyBinding> = Vec::new();
        let ghost w0 = strings_view(warnings@);
        let mut i: usize = 0;
        while i < entries.len()
            invariant
                i <= entries.len(),
                bindings_view(customs@) == valid_bindings(entries@.take(i as int)),
                strings_view(warnings@) == w0 + entry_errors(entries@.take(i as int)),
            decreases entries.len() - i,
        {
            assert(entries@.take(i + 1).drop_last() =~= entries@.take(i as int));
            assert(entries@.take(i + 1).last() == entries@[i as int]);
            match parse_entry(&entries[i]) {
                Ok(binding) => {
                    let ghost before = customs@;
                    customs.push(binding);
                    assert(bindings_view(customs@) =~= bindings_view(before).push(binding@));
                },
                Err(reason) => push_string(warnings, reason),
            }
            i += 1;
        }
        assert(entries@.take(entries.len() as int) =~= entries@);
        let ghost valid = valid_bindings(entries@);
        if customs.len() > MAX_BINDINGS {
            let mut msg = str_chars("Keybindings truncated from ");
            let digits = u64_decimal(customs.len() as u64);
            msg.append(&mut digits.clone());
            let mut tail = str_chars(" to 512");
            let ghost m1 = msg@;
            msg.append(&mut tail);
            proof {
                reveal_strlit("Keybindings truncated from ");
                reveal_strlit(" to 512");
            }
            push_string(warnings, string_from_chars(msg.as_slice()));
            let ghost before = customs@;
            customs.truncate(MAX_BINDINGS);
            assert(bindings_view(customs@) =~= bindings_view(before).take(MAX_BINDINGS as int));
        }
        KeybindingRegistry { defaults: Vec::new(), customs }
    }
}

/// A binding entry as read from the keybindings file.
#[derive(Debug, Clone)]
pub struct RawEntry {
    pub key: String,
    pub modifiers: Vec<String>,
    pub action: String,
    pub mode: Option<String>,
}

/// The input mode of an entry: `Normal` when absent.
pub open spec fn input_mode_named(raw: Option<Seq<char>>) -> Option<InputMode> {
    match raw {
        None => Some(InputMode::Normal),
        Some(m) => if m == "Normal"@ {
            Some(InputMode::Normal)
        } else if m == "Search"@ {
            Some(InputMode::Search)
        } else if m == "CommandPalette"@ {
            Some(InputMode::CommandPalette)
        } else if m == "SleepTimer"@ {
            Some(InputMode::SleepTimer)
        } else if m == "LibraryFilter"@ {
            Some(InputMode::LibraryFilter)
        } else {
            None
        },
    }
}

pub fn parse_input_mode(raw: Option<&str>) -> (r: Result<InputMode, String>)
    ensures
        match input_mode_named(match raw {
            Some(s) => Some(s@),
            None => None,
        }) {
            Some(m) => r == Ok::<InputMode, String>(m),
            None => r matches Err(msg) && msg@ == "Invalid mode: '"@ + raw->0@ + "'"@,
        },
{
    match raw {
        None => Ok(InputMode::Normal),
        Some(m) => {
            let c = str_chars(m);
            let c = c.as_slice();
            if str_eq_chars("Normal", c) {
                Ok(InputMode::Normal)
            } else if str_eq_chars("Search", c) {
                Ok(InputMode::Search)
            } else if str_eq_chars("CommandPalette", c) {
                Ok(InputMode::CommandPalette)
            } else if str_eq_chars("SleepTimer", c) {
                Ok(InputMode::SleepTimer)
            } else if str_eq_chars("LibraryFilter", c) {
                Ok(InputMode::LibraryFilter)
            } else {
                Err(quoted("Invalid mode: '", m))
            }
        },
    }
}

/// `prefix`, then `s`, then a closing quote.
fn quoted(prefix: &str, s: &str) -> (r: String)
    ensures
        r@ == prefix@ + s@ + "'"@,
{
    let mut out = str_chars(prefix);
    out.append(&mut str_chars(s));
    out.append(&mut str_chars("'"));
    string_from_chars(out.as_slice())
}

/// The modifiers of an entry, or the first invalid one.
pub open spec fn modifiers_of(raw: Seq<Seq<char>>) -> Result<Seq<Modifier>, Seq<char>>
    decreases raw.len(),
{
    if raw.len() == 0 {
        Ok(Seq::empty())
    } else {
        match modifiers_of(raw.drop_last()) {
            Err(e) => Err(e),
            Ok(ms) => match modifier_named(lowercase(trim(raw.last()))) {
                Some(m) => Ok(ms.push(m)),
                None => Err("Invalid modifier: '"@ + raw.last() + "'"@),
            },
        }
    }
}

pub fn parse_modifiers(raw: &[String]) -> (r: Result<Vec<Modifier>, String>)
    ensures
        match modifiers_of(raw@.map_values(|s: String| s@)) {
            Ok(ms) => r matches Ok(v) && v@ == ms,
            Err(e) => r matches Err(msg) && msg@ == e,
        },
{
    let ghost rv = raw@.map_values(|s: String| s@);
    let mut out: Vec<Modifier> = Vec::new();
    let mut i: usize = 0;
    assert(rv.take(0) =~= Seq::<Seq<char>>::empty());
    while i < raw.len()
        invariant
            i <= raw.len(),
            rv == raw@.map_values(|s: String| s@),
            modifiers_of(rv.take(i as int)) == Ok::<Seq<Modifier>, Seq<char>>(out@),
        decreases raw.len() - i,
    {
        assert(rv.take(i + 1).drop_last() =~= rv.take(i as int));
        assert(rv.take(i + 1).last() == raw@[i as int]@);
        match parse_modifier(raw[i].as_str()) {
            Some(m) => out.push(m),
            None => {
                proof {
                    lemma_modifiers_err_sticks(rv, i as int + 1);
                }
                return Err(quoted("Invalid modifier: '", raw[i].as_str()));
            },
        }
        i += 1;
    }
    assert(rv.take(raw.len() as int) =~= rv);
    Ok(out)
}

/// Once a prefix has an invalid modifier, so has the whole list, with the
/// same message.
proof fn lemma_modifiers_err_sticks(raw: Seq<Seq<char>>, k: int)
    requires
        0 <= k <= raw.len(),
        modifiers_of(raw.take(k)) is Err,
    ensures
        modifiers_of(raw) == modifiers_of(raw.take(k)),
    decreases raw.len() - k,
{
    if k < raw.len() {
        assert(raw.take(k + 1).drop_last() =~= raw.take(k));
        lemma_modifiers_err_sticks(raw, k + 1);
    } else {
        assert(raw.take(k) =~= raw);
    }
}

/// The binding an entry describes, or why it is invalid.
pub open spec fn entry_binding(key: Seq<char>, modifiers: Seq<Seq<char>>, action: Seq<char>, mode: Option<Seq<char>>) -> Result<KeyBindingView, Seq<char>> {
    match key_spec_of(key) {
        None => Err("Invalid key spec: '"@ + key + "'"@),
        Some(k) => match modifiers_of(modifiers) {
            Err(e) => Err(e),
            Ok(ms) => match action_named(action) {
                None => Err("Invalid action name: '"@ + action + "'"@),
                Some(a) => match input_mode_named(mode) {
                    None => Err("Invalid mode: '"@ + mode->0 + "'"@),
                    Some(m) => Ok(KeyBindingView { key: k, modifiers: ms, action: a, mode: m }),
                },
            },
        },
    }
}

pub open spec fn raw_entry_binding(e: RawEntry) -> Result<KeyBindingView, Seq<char>> {
    entry_binding(
        e.key@,
        e.modifiers@.map_values(|s: String| s@),
        e.action@,
        match e.mode {
            Some(m) => Some(m@),
            None => None,
        },
    )
}

pub fn parse_entry(entry: &RawEntry) -> (r: Result<KeyBinding, String>)
    ensures
        match raw_entry_binding(*entry) {
            Ok(b) => r matches Ok(k) && k@ == b,
            Err(e) => r matches Err(msg) && msg@ == e,
        },
{
    let key = match parse_key_spec(entry.key.as_str()) {
        Some(k) => k,
        None => return Err(quoted("Invalid key spec: '", entry.key.as_str())),
    };
    let modifiers = match parse_modifiers(entry.modifiers.as_slice()) {
        Ok(m) => m,
        Err(e) => return Err(e),
    };
    let action = match parse_action_name(entry.action.as_str()) {
        Some(a) => a,
        None => return Err(quoted("Invalid action name: '", entry.action.as_str())),
    };
    let mode = match &entry.mode {
        Some(m) => parse_input_mode(Some(m.as_str())),
        None => parse_input_mode(None),
    };
    let mode = match mode {
        Ok(m) => m,
        Err(e) => return Err(e),
    };
    Ok(KeyBinding { key, modifiers, action, mode })
}

/// Splits `name(value)` into its name and value: at the first `(`, when the
/// text ends with `)`.
pub open spec fn parameterized_parts(input: Seq<char>) -> Option<(Seq<char>, Seq<char>)> {
    match find(input, "("@) {
        Some(open) => if ends_with(input, ")"@) {
            Some((input.take(open), input.subrange(open + 1, input.len() - 1)))
        } else {
            None
        },
        None => None,
    }
}

/// The action of `name(value)`.
pub open spec fn parameterized_action(name: Seq<char>, value: Seq<char>) -> Option<Action> {
    if name == "play_slot"@ {
        match parse_unsigned(value, 255) {
            Some(n) => Some(Action::PlaySlot(n as u8)),
            None => None,
        }
    } else if name == "assign_slot"@ {
        match parse_unsigned(value, 255) {
            Some(n) => Some(Action::AssignSlot(n as u8)),
            None => None,
        }
    } else if name == "sleep_timer_preset"@ {
        match parse_unsigned(value, 65535) {
            Some(n) => Some(Action::SleepTimerPreset(n as u16)),
            None => None,
        }
    } else if name == "search_input"@ {
        if value.len() > 0 { Some(Action::SearchInput(value[0])) } else { None }
    } else if name == "command_palette_input"@ {
        if value.len() > 0 { Some(Action::CommandPaletteInput(value[0])) } else { None }
    } else if name == "library_filter_input"@ {
        if value.len() > 0 { Some(Action::LibraryFilterInput(value[0])) } else { None }
    } else if name == "number_jump_digit"@ {
        if value.len() > 0 { Some(Action::NumberJumpDigit(value[0])) } else { None }
    } else {
        None
    }
}

/// The action a snake_case name denotes, parameterised (`play_slot(3)`) or
/// plain (`next_station`).
pub open spec fn action_named(input: Seq<char>) -> Option<Action> {
    match parameterized_parts(input) {
        Some((name, value)) => parameterized_action(name, value),
        None => simple_action(input),
    }
}

/// Parses a snake_case action name, such as `next_station`, `play_slot(3)`
/// or `sleep_timer_preset(30)`.
pub fn parse_action_name(input: &str) -> (r: Option<Action>)
    ensures
        r == action_named(input@),
{
    let c = str_chars(input);
    let c = c.as_slice();
    let open_paren = str_chars("(");
    let close_paren = str_chars(")");
    proof {
        reveal_strlit("(");
        reveal_strlit(")");
    }
    match find_chars(c, open_paren.as_slice()) {
        Some(open) => {
            if crate::text::ends_with_chars(c, close_paren.as_slice()) {
                assert("("@.len() == 1 && "("@[0] == '(');
                assert(")"@.len() == 1 && ")"@[0] == ')');
                assert(occurs_at(c@, "("@, open as int));
                assert(c@.subrange(open as int, open + 1)[0] == c@[open as int]);
                assert(c@[open as int] == '(');
                assert(c@.skip(c@.len() - 1)[0] == c@[c@.len() - 1]);
                assert(c@[c@.len() - 1] == ')');
                let name = slice_range(c, 0, open);
                let value = slice_range(c, open + 1, c.len() - 1);
                assert(name@ =~= c@.take(open as int));
                return parse_parameterized_action(name.as_slice(), value.as_slice());
            }
        },
        None => {},
    }
    parse_simple_action(c)
}

fn parse_parameterized_action(name: &[char], value: &[char]) -> (r: Option<Action>)
    ensures
        r == parameterized_action(name@, value@),
{
    if str_eq_chars("play_slot", name) {
        match parse_unsigned_chars(value, 255) {
            Some(n) => Some(Action::PlaySlot(n as u8)),
            None => None,
        }
    } else if str_eq_chars("assign_slot", name) {
        match parse_unsigned_chars(value, 255) {
            Some(n) => Some(Action::AssignSlot(n as u8)),
            None => None,
        }
    } else if str_eq_chars("sleep_timer_preset", name) {
        match parse_unsigned_chars(value, 65535) {
            Some(n) => Some(Action::SleepTimerPreset(n as u16)),
            None => None,
        }
    } else if str_eq_chars("search_input", name) {
        if value.len() > 0 { Some(Action::SearchInput(value[0])) } else { None }
    } else if str_eq_chars("command_palette_input", name) {
        if value.len() > 0 { Some(Action::CommandPaletteInput(value[0])) } else { None }
    } else if str_eq_chars("library_filter_input", name) {
        if value.len() > 0 { Some(Action::LibraryFilterInput(value[0])) } else { None }
    } else if str_eq_chars("number_jump_digit", name) {
        if value.len() > 0 { Some(Action::NumberJumpDigit(value[0])) } else { None }
    } else {
        None
    }
}

/// The action named by a plain (unparameterised) snake_case name.
pub open spec fn simple_action(name: Seq<char>) -> Option<Action> {
    if name == "next_station"@ {
        Some(Action::NextStation)
    } else if name == "prev_station"@ {
        Some(Action::PrevStation)
    } else if name == "play_selected"@ {
        Some(Action::PlaySelected)
    } else if name == "toggle_pause"@ {
        Some(Action::TogglePause)
    } else if name == "stop"@ {
        Some(Action::Stop)
    } else if name == "retry_stream"@ {
        Some(Action::RetryStream)
    } else if name == "volume_up"@ {
        Some(Action::VolumeUp)
    } else if name == "volume_down"@ {
        Some(Action::VolumeDown)
    } else if name == "toggle_mute"@ {
        Some(Action::ToggleMute)
    } else if name == "enter_search"@ {
        Some(Action::EnterSearch)
    } else if name == "exit_search"@ {
        Some(Action::ExitSearch)
    } else if name == "search_backspace"@ {
        Some(Action::SearchBackspace)
    } else if name == "search_confirm"@ {
        Some(Action::SearchConfirm)
    } else if name == "search_audition"@ {
        Some(Action::SearchAudition)
    } else if name == "open_command_palette"@ {
        Some(Action::OpenCommandPalette)
    } else if name == "command_palette_confirm"@ {
        Some(Action::CommandPaletteConfirm)
    } else if name == "command_palette_close"@ {
        Some(Action::CommandPaletteClose)
    } else if name == "command_palette_backspace"@ {
        Some(Action::CommandPaletteBackspace)
    } else if name == "command_palette_next"@ {
        Some(Action::CommandPaletteNext)
    } else if name == "command_palette_prev"@ {
        Some(Action::CommandPalettePrev)
    } else if name == "remove_library_selection"@ {
        Some(Action::RemoveLibrarySelection)
    } else if name == "undo_remove_library_selection"@ {
        Some(Action::UndoRemoveLibrarySelection)
    } else if name == "next_genre"@ {
        Some(Action::NextGenre)
    } else if name == "prev_genre"@ {
        Some(Action::PrevGenre)
    } else if name == "enter_library_filter"@ {
        Some(Action::EnterLibraryFilter)
    } else if name == "exit_library_filter"@ {
        Some(Action::ExitLibraryFilter)
    } else if name == "library_filter_backspace"@ {
        Some(Action::LibraryFilterBackspace)
    } else if name == "library_filter_confirm"@ {
        Some(Action::LibraryFilterConfirm)
    } else if name == "toggle_favorite"@ {
        Some(Action::ToggleFavorite)
    } else if name == "number_jump_confirm"@ {
        Some(Action::NumberJumpConfirm)
    } else if name == "number_jump_cancel"@ {
        Some(Action::NumberJumpCancel)
    } else if name == "cycle_layout"@ {
        Some(Action::CycleLayout)
    } else if name == "toggle_help"@ {
        Some(Action::ToggleHelp)
    } else if name == "toggle_station_details"@ {
        Some(Action::ToggleStationDetails)
    } else if name == "toggle_recent_tracks"@ {
        Some(Action::ToggleRecentTracks)
    } else if name == "toggle_playback_doctor"@ {
        Some(Action::TogglePlaybackDoctor)
    } else if name == "step_setting_forward"@ {
        Some(Action::StepSettingForward)
    } else if name == "step_setting_backward"@ {
        Some(Action::StepSettingBackward)
    } else if name == "toggle_settings"@ {
        Some(Action::ToggleSettings)
    } else if name == "cycle_theme_setting"@ {
        Some(Action::CycleThemeSetting)
    } else if name == "toggle_stream_metadata"@ {
        Some(Action::ToggleStreamMetadata)
    } else if name == "refresh_library_metadata"@ {
        Some(Action::RefreshLibraryMetadata)
    } else if name == "toggle_visualizer_mode"@ {
        Some(Action::ToggleVisualizerMode)
    } else if name == "toggle_mini_mode"@ {
        Some(Action::ToggleMiniMode)
    } else if name == "quit"@ {
        Some(Action::Quit)
    } else if name == "toggle_sleep_timer"@ {
        Some(Action::ToggleSleepTimer)
    } else if name == "sleep_timer_increase"@ {
        Some(Action::SleepTimerIncrease)
    } else if name == "sleep_timer_decrease"@ {
        Some(Action::SleepTimerDecrease)
    } else if name == "sleep_timer_clear"@ {
        Some(Action::SleepTimerClear)
    } else if name == "export_library"@ {
        Some(Action::ExportLibrary)
    } else if name == "tick"@ {
        Some(Action::Tick)
    } else if name == "discover"@ {
        Some(Action::Discover)
    } else {
        None
    }
}

/// Parses a plain action name.
pub fn parse_simple_action(input: &[char]) -> (r: Option<Action>)
    ensures
        r == simple_action(input@),
{
    if str_eq_chars("next_station", input) {
        Some(Action::NextStation)
    } else if str_eq_chars("prev_station", input) {
        Some(Action::PrevStation)
    } else if str_eq_chars("play_selected", input) {
        Some(Action::PlaySelected)
    } else if str_eq_chars("toggle_pause", input) {
        Some(Action::TogglePause)
    } else if str_eq_chars("stop", input) {
        Some(Action::Stop)
    } else if str_eq_chars("retry_stream", input) {
        Some(Action::RetryStream)
    } else if str_eq_chars("volume_up", input) {
        Some(Action::VolumeUp)
    } else if str_eq_chars("volume_down", input) {
        Some(Action::VolumeDown)
    } else if str_eq_chars("toggle_mute", input) {
        Some(Action::ToggleMute)
    } else if str_eq_chars("enter_search", input) {
        Some(Action::EnterSearch)
    } else if str_eq_chars("exit_search", input) {
        Some(Action::ExitSearch)
    } else if str_eq_chars("search_backspace", input) {
        Some(Action::SearchBackspace)
    } else if str_eq_chars("search_confirm", input) {
        Some(Action::SearchConfirm)
    } else if str_eq_chars("search_audition", input) {
        Some(Action::SearchAudition)
    } else if str_eq_chars("open_command_palette", input) {
        Some(Action::OpenCommandPalette)
    } else if str_eq_chars("command_palette_confirm", input) {
        Some(Action::CommandPaletteConfirm)
    } else if str_eq_chars("command_palette_close", input) {
        Some(Action::CommandPaletteClose)
    } else if str_eq_chars("command_palette_backspace", input) {
        Some(Action::CommandPaletteBackspace)
    } else if str_eq_chars("command_palette_next", input) {
        Some(Action::CommandPaletteNext)
    } else if str_eq_chars("command_palette_prev", input) {
        Some(Action::CommandPalettePrev)
    } else if str_eq_chars("remove_library_selection", input) {
        Some(Action::RemoveLibrarySelection)
    } else if str_eq_chars("undo_remove_library_selection", input) {
        Some(Action::UndoRemoveLibrarySelection)
    } else if str_eq_chars("next_genre", input) {
        Some(Action::NextGenre)
    } else if str_eq_chars("prev_genre", input) {
        Some(Action::PrevGenre)
    } else if str_eq_chars("enter_library_filter", input) {
        Some(Action::EnterLibraryFilter)
    } else if str_eq_chars("exit_library_filter", input) {
        Some(Action::ExitLibraryFilter)
    } else if str_eq_chars("library_filter_backspace", input) {
        Some(Action::LibraryFilterBackspace)
    } else if str_eq_chars("library_filter_confirm", input) {
        Some(Action::LibraryFilterConfirm)
    } else if str_eq_chars("toggle_favorite", input) {
        Some(Action::ToggleFavorite)
    } else if str_eq_chars("number_jump_confirm", input) {
        Some(Action::NumberJumpConfirm)
    } else if str_eq_chars("number_jump_cancel", input) {
        Some(Action::NumberJumpCancel)
    } else if str_eq_chars("cycle_layout", input) {
        Some(Action::CycleLayout)
    } else if str_eq_chars("toggle_help", input) {
        Some(Action::ToggleHelp)
    } else if str_eq_chars("toggle_station_details", input) {
        Some(Action::ToggleStationDetails)
    } else if str_eq_chars("toggle_recent_tracks", input) {
        Some(Action::ToggleRecentTracks)
    } else if str_eq_chars("toggle_playback_doctor", input) {
        Some(Action::TogglePlaybackDoctor)
    } else if str_eq_chars("step_setting_forward", input) {
        Some(Action::StepSettingForward)
    } else if str_eq_chars("step_setting_backward", input) {
        Some(Action::StepSettingBackward)
    } else if str_eq_chars("toggle_settings", input) {
        Some(Action::ToggleSettings)
    } else if str_eq_chars("cycle_theme_setting", input) {
        Some(Action::CycleThemeSetting)
    } else if str_eq_chars("toggle_stream_metadata", input) {
        Some(Action::ToggleStreamMetadata)
    } else if str_eq_chars("refresh_library_metadata", input) {
        Some(Action::RefreshLibraryMetadata)
    } else if str_eq_chars("toggle_visualizer_mode", input) {
        Some(Action::ToggleVisualizerMode)
    } else if str_eq_chars("toggle_mini_mode", input) {
        Some(Action::ToggleMiniMode)
    } else if str_eq_chars("quit", input) {
        Some(Action::Quit)
    } else if str_eq_chars("toggle_sleep_timer", input) {
        Some(Action::ToggleSleepTimer)
    } else if str_eq_chars("sleep_timer_increase", input) {
        Some(Action::SleepTimerIncrease)
    } else if str_eq_chars("sleep_timer_decrease", input) {
        Some(Action::SleepTimerDecrease)
    } else if str_eq_chars("sleep_timer_clear", input) {
        Some(Action::SleepTimerClear)
    } else if str_eq_chars("export_library", input) {
        Some(Action::ExportLibrary)
    } else if str_eq_chars("tick", input) {
        Some(Action::Tick)
    } else if str_eq_chars("discover", input) {
        Some(Action::Discover)
    } else {
        None
    }
}


/// `name(value)` splits into `name` and `value` when the name holds no `(`.
proof fn lemma_parameterized_split(name: Seq<char>, value: Seq<char>)
    requires
        forall|i: int| 0 <= i < name.len() ==> name[i] != '(',
    ensures
        parameterized_parts(name + "("@ + value + ")"@) == Some((name, value)),
{
    reveal_strlit("(");
    reveal_strlit(")");
    let input = name + "("@ + value + ")"@;
    let k = name.len() as int;
    assert(input.subrange(k, k + 1) =~= "("@);
    assert(occurs_at(input, "("@, k));
    assert forall|j: int| 0 <= j < k implies !occurs_at(input, "("@, j) by {
        if occurs_at(input, "("@, j) {
            assert(input.subrange(j, j + 1)[0] == input[j]);
            assert(input[j] == name[j]);
        }
    }
    assert(first_occurrence(input, "("@, k));
    let i = choose|i: int| first_occurrence(input, "("@, i);
    if i < k {
        assert(!occurs_at(input, "("@, i));
    }
    if i > k {
        assert(!occurs_at(input, "("@, k));
    }
    assert(find(input, "("@) == Some(k));
    assert(input.skip(input.len() - 1) =~= ")"@);
    assert(ends_with(input, ")"@));
    assert(input.take(k) =~= name);
    assert(input.subrange(k + 1, input.len() - 1) =~= value);
}

/// The number a parameterised action takes, as its own variant.
pub open spec fn numbered<A>(value: Seq<char>, max: nat, f: spec_fn(nat) -> A) -> Option<A> {
    match parse_unsigned(value, max) {
        Some(n) => Some(f(n)),
        None => None,
    }
}

/// Each parameterised name gives its own action, whatever the value:
/// `play_slot(v)` plays slot `v`, `assign_slot(v)` assigns slot `v` and
/// `sleep_timer_preset(v)` starts a timer of `v` minutes, where `v` is a
/// number in range (up to 255 slots, 65535 minutes); any other value names
/// no action.
pub proof fn lemma_parameterized_names_keep_their_variant(v: Seq<char>)
    ensures
        action_named("play_slot("@ + v + ")"@) == numbered(v, 255, |n: nat| Action::PlaySlot(n as u8)),
        action_named("assign_slot("@ + v + ")"@) == numbered(v, 255, |n: nat| Action::AssignSlot(n as u8)),
        action_named("sleep_timer_preset("@ + v + ")"@) == numbered(
            v,
            65535,
            |n: nat| Action::SleepTimerPreset(n as u16),
        ),
{
    reveal_strlit("play_slot(");
    reveal_strlit("play_slot");
    reveal_strlit("assign_slot(");
    reveal_strlit("assign_slot");
    reveal_strlit("sleep_timer_preset(");
    reveal_strlit("sleep_timer_preset");
    reveal_strlit("(");
    assert("play_slot("@ =~= "play_slot"@ + "("@);
    assert("assign_slot("@ =~= "assign_slot"@ + "("@);
    assert("sleep_timer_preset("@ =~= "sleep_timer_preset"@ + "("@);
    lemma_parameterized_split("play_slot"@, v);
    lemma_parameterized_split("assign_slot"@, v);
    lemma_parameterized_split("sleep_timer_preset"@, v);
    assert("assign_slot"@ != "play_slot"@);
    assert("sleep_timer_preset"@ != "play_slot"@);
    assert("sleep_timer_preset"@ != "assign_slot"@);
}

/// For every slot number `n` up to 255, `assign_slot(n)` assigns slot `n`
/// and `play_slot(n)` plays it.
pub proof fn lemma_slot_numbers_read_back(n: nat)
    requires
        n <= 255,
    ensures
        action_named("assign_slot("@ + decimal(n) + ")"@) == Some(Action::AssignSlot(n as u8)),
        action_named("play_slot("@ + decimal(n) + ")"@) == Some(Action::PlaySlot(n as u8)),
{
    crate::text::lemma_decimal_nonempty(n);
    assert(crate::text::is_digit(decimal(n)[0]));
    assert(crate::text::unsigned_body(decimal(n)) == decimal(n));
    assert(parse_unsigned(decimal(n), 255) == Some(n));
    lemma_parameterized_names_keep_their_variant(decimal(n));
}


/// The first character of a value, as the action that takes it.
pub open spec fn first_char<A>(value: Seq<char>, f: spec_fn(char) -> A) -> Option<A> {
    if value.len() > 0 { Some(f(value[0])) } else { None }
}

/// Each character-taking name gives its own action with the value's first
/// character: `search_input(c)`, `command_palette_input(c)`,
/// `library_filter_input(c)` and `number_jump_digit(c)`; an empty value
/// names no action.
pub proof fn lemma_character_names_keep_their_variant(v: Seq<char>)
    ensures
        action_named("search_input("@ + v + ")"@) == first_char(v, |c: char| Action::SearchInput(c)),
        action_named("command_palette_input("@ + v + ")"@) == first_char(
            v,
            |c: char| Action::CommandPaletteInput(c),
        ),
        action_named("library_filter_input("@ + v + ")"@) == first_char(
            v,
            |c: char| Action::LibraryFilterInput(c),
        ),
        action_named("number_jump_digit("@ + v + ")"@) == first_char(v, |c: char| Action::NumberJumpDigit(c)),
{
    reveal_strlit("(");
    reveal_strlit("play_slot");
    reveal_strlit("assign_slot");
    reveal_strlit("sleep_timer_preset");
    reveal_strlit("search_input(");
    reveal_strlit("search_input");
    reveal_strlit("command_palette_input(");
    reveal_strlit("command_palette_input");
    reveal_strlit("library_filter_input(");
    reveal_strlit("library_filter_input");
    reveal_strlit("number_jump_digit(");
    reveal_strlit("number_jump_digit");
    assert("search_input("@ =~= "search_input"@ + "("@);
    assert("command_palette_input("@ =~= "command_palette_input"@ + "("@);
    assert("library_filter_input("@ =~= "library_filter_input"@ + "("@);
    assert("number_jump_digit("@ =~= "number_jump_digit"@ + "("@);
    lemma_parameterized_split("search_input"@, v);
    lemma_parameterized_split("command_palette_input"@, v);
    lemma_parameterized_split("library_filter_input"@, v);
    lemma_parameterized_split("number_jump_digit"@, v);
    assert("search_input"@ != "play_slot"@);
    assert("search_input"@ != "assign_slot"@);
    assert("search_input"@ != "sleep_timer_preset"@);
    assert("command_palette_input"@ != "play_slot"@);
    assert("command_palette_input"@ != "assign_slot"@);
    assert("command_palette_input"@ != "sleep_timer_preset"@);
    assert("command_palette_input"@ != "search_input"@);
    assert("library_filter_input"@ != "play_slot"@);
    assert("library_filter_input"@ != "assign_slot"@);
    assert("library_filter_input"@ != "sleep_timer_preset"@);
    assert("library_filter_input"@ != "search_input"@);
    assert("library_filter_input"@ != "command_palette_input"@);
    assert("number_jump_digit"@ != "play_slot"@);
    assert("number_jump_digit"@ != "assign_slot"@);
    assert("number_jump_digit"@ != "sleep_timer_preset"@);
    assert("number_jump_digit"@ != "search_input"@);
    assert("number_jump_digit"@ != "command_palette_input"@);
    assert("number_jump_digit"@ != "library_filter_input"@);
}

} // verus!
