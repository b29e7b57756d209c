//! The default key bindings of each input mode.

use vstd::prelude::*;
use crate::action::Action;
use crate::keybindings::{bindings_view, InputMode, KeyBinding, KeyBindingView, KeySpec, Modifier, NamedKey};

verus! {

/// A binding entry of the default tables.
pub open spec fn entry(key: KeySpec, modifiers: Seq<Modifier>, action: Action, mode: InputMode) -> KeyBindingView {
    KeyBindingView { key, modifiers, action, mode }
}

/// Builds a binding.
pub fn bind(key: KeySpec, modifiers: &[Modifier], action: Action, mode: InputMode) -> (b: KeyBinding)
    ensures
        b@ == entry(key, modifiers@, action, mode),
{
    let mut mods: Vec<Modifier> = Vec::new();
    let mut i: usize = 0;
    while i < modifiers.len()
        invariant
            i <= modifiers.len(),
            mods@ == modifiers@.take(i as int),
        decreases modifiers.len() - i,
    {
        mods.push(modifiers[i]);
        assert(modifiers@.take(i + 1) =~= modifiers@.take(i as int).push(modifiers@[i as int]));
        i += 1;
    }
    assert(modifiers@.take(modifiers.len() as int) =~= modifiers@);
    KeyBinding { key, modifiers: mods, action, mode }
}

fn push_bind(v: &mut Vec<KeyBinding>, key: KeySpec, modifiers: &[Modifier], action: Action, mode: InputMode)
    ensures
        bindings_view(final(v)@) == bindings_view(old(v)@).push(entry(key, modifiers@, action, mode)),
{
    let b = bind(key, modifiers, action, mode);
    v.push(b);
    assert(bindings_view(v@) =~= bindings_view(old(v)@).push(b@));
}

/// The bindings of `normal_mode_defaults`, in order.
pub open spec fn normal_mode_table() -> Seq<KeyBindingView> {
    seq![
        entry(KeySpec::Char('q'), Seq::empty(), Action::Quit, InputMode::Normal),
        entry(KeySpec::Named(NamedKey::Esc), Seq::empty(), Action::Quit, InputMode::Normal),
        entry(KeySpec::Char('c'), seq![Modifier::Ctrl], Action::Quit, InputMode::Normal),
        entry(KeySpec::Char('/'), Seq::empty(), Action::EnterSearch, InputMode::Normal),
        entry(KeySpec::Function(3), Seq::empty(), Action::EnterSearch, InputMode::Normal),
        entry(KeySpec::Char('f'), seq![Modifier::Ctrl], Action::EnterSearch, InputMode::Normal),
        entry(KeySpec::Char(':'), Seq::empty(), Action::OpenCommandPalette, InputMode::Normal),
        entry(KeySpec::Char('p'), seq![Modifier::Ctrl], Action::OpenCommandPalette, InputMode::Normal),
        entry(KeySpec::Named(NamedKey::Up), Seq::empty(), Action::PrevStation, InputMode::Normal),
        entry(KeySpec::Char('k'), Seq::empty(), Action::PrevStation, InputMode::Normal),
        entry(KeySpec::Named(NamedKey::Down), Seq::empty(), Action::NextStation, InputMode::Normal),
        entry(KeySpec::Char('j'), Seq::empty(), Action::NextStation, InputMode::Normal),
        entry(KeySpec::Char('l'), Seq::empty(), Action::StepSettingForward, InputMode::Normal),
        entry(KeySpec::Named(NamedKey::Right), Seq::empty(), Action::StepSettingForward, InputMode::Normal),
        entry(KeySpec::Named(NamedKey::Left), Seq::empty(), Action::StepSettingBackward, InputMode::Normal),
        entry(KeySpec::Char('a'), Seq::empty(), Action::StepSettingBackward, InputMode::Normal),
        entry(KeySpec::Named(NamedKey::Enter), Seq::empty(), Action::PlaySelected, InputMode::Normal),
        entry(KeySpec::Char(' '), Seq::empty(), Action::TogglePause, InputMode::Normal),
        entry(KeySpec::Char('s'), Seq::empty(), Action::Stop, InputMode::Normal),
        entry(KeySpec::Char('r'), Seq::empty(), Action::RetryStream, InputMode::Normal),
        entry(KeySpec::Char('+'), Seq::empty(), Action::VolumeUp, InputMode::Normal),
        entry(KeySpec::Char('='), Seq::empty(), Action::VolumeUp, InputMode::Normal),
        entry(KeySpec::Char('-'), Seq::empty(), Action::VolumeDown, InputMode::Normal),
        entry(KeySpec::Char('m'), Seq::empty(), Action::ToggleMute, InputMode::Normal),
        entry(KeySpec::Char('f'), Seq::empty(), Action::RemoveLibrarySelection, InputMode::Normal),
        entry(KeySpec::Char('u'), Seq::empty(), Action::UndoRemoveLibrarySelection, InputMode::Normal),
        entry(KeySpec::Named(NamedKey::Tab), Seq::empty(), Action::NextGenre, InputMode::Normal),
        entry(KeySpec::Named(NamedKey::Tab), seq![Modifier::Shift], Action::PrevGenre, InputMode::Normal),
        entry(KeySpec::Char('l'), seq![Modifier::Ctrl], Action::EnterLibraryFilter, InputMode::Normal),
        entry(KeySpec::Char('1'), seq![Modifier::Alt], Action::PlaySlot(1), InputMode::Normal),
        entry(KeySpec::Char('2'), seq![Modifier::Alt], Action::PlaySlot(2), InputMode::Normal),
        entry(KeySpec::Char('3'), seq![Modifier::Alt], Action::PlaySlot(3), InputMode::Normal),
        entry(KeySpec::Char('4'), seq![Modifier::Alt], Action::PlaySlot(4), InputMode::Normal),
        entry(KeySpec::Char('5'), seq![Modifier::Alt], Action::PlaySlot(5), InputMode::Normal),
        entry(KeySpec::Char('1'), seq![Modifier::Ctrl], Action::AssignSlot(1), InputMode::Normal),
        entry(KeySpec::Char('2'), seq![Modifier::Ctrl], Action::AssignSlot(2), InputMode::Normal),
        entry(KeySpec::Char('3'), seq![Modifier::Ctrl], Action::AssignSlot(3), InputMode::Normal),
        entry(KeySpec::Char('4'), seq![Modifier::Ctrl], Action::AssignSlot(4), InputMode::Normal),
        entry(KeySpec::Char('5'), seq![Modifier::Ctrl], Action::AssignSlot(5), InputMode::Normal),
        entry(KeySpec::Char('*'), Seq::empty(), Action::ToggleFavorite, InputMode::Normal),
        entry(KeySpec::Char('G'), Seq::empty(), Action::NumberJumpConfirm, InputMode::Normal),
        entry(KeySpec::Char('?'), Seq::empty(), Action::ToggleHelp, InputMode::Normal),
        entry(KeySpec::Char('h'), Seq::empty(), Action::ToggleHelp, InputMode::Normal),
        entry(KeySpec::Char('i'), Seq::empty(), Action::ToggleStationDetails, InputMode::Normal),
        entry(KeySpec::Char('g'), Seq::empty(), Action::ToggleRecentTracks, InputMode::Normal),
        entry(KeySpec::Char('d'), Seq::empty(), Action::TogglePlaybackDoctor, InputMode::Normal),
        entry(KeySpec::Char('b'), Seq::empty(), Action::CycleLayout, InputMode::Normal),
        entry(KeySpec::Char('v'), Seq::empty(), Action::ToggleVisualizerMode, InputMode::Normal),
        entry(KeySpec::Char(','), Seq::empty(), Action::ToggleSettings, InputMode::Normal),
        entry(KeySpec::Char('t'), Seq::empty(), Action::ToggleSleepTimer, InputMode::Normal),
        entry(KeySpec::Char('e'), Seq::empty(), Action::ExportLibrary, InputMode::Normal),
        entry(KeySpec::Function(6), Seq::empty(), Action::ToggleMiniMode, InputMode::Normal),
    ]
}

pub fn normal_mode_defaults() -> (r: Vec<KeyBinding>)
    ensures
        bindings_view(r@) == normal_mode_table(),
{
    let mut v: Vec<KeyBinding> = Vec::new();
    let none: [Modifier; 0] = [];
    let ctrl: [Modifier; 1] = [Modifier::Ctrl];
    let alt: [Modifier; 1] = [Modifier::Alt];
    let shift: [Modifier; 1] = [Modifier::Shift];
    assert(none@ == Seq::<Modifier>::empty());
    assert(ctrl@ == seq![Modifier::Ctrl]);
    assert(alt@ == seq![Modifier::Alt]);
    assert(shift@ == seq![Modifier::Shift]);
    push_bind(&mut v, KeySpec::Char('q'), &none, Action::Quit, InputMode::Normal);
    push_bind(&mut v, KeySpec::Named(NamedKey::Esc), &none, Action::Quit, InputMode::Normal);
    push_bind(&mut v, KeySpec::Char('c'), &ctrl, Action::Quit, InputMode::Normal);
    push_bind(&mut v, KeySpec::Char('/'), &none, Action::EnterSearch, InputMode::Normal);
    push_bind(&mut v, KeySpec::Function(3), &none, Action::EnterSearch, InputMode::Normal);
    push_bind(&mut v, KeySpec::Char('f'), &ctrl, Action::EnterSearch, InputMode::Normal);
    push_bind(&mut v, KeySpec::Char(':'), &none, Action::OpenCommandPalette, InputMode::Normal);
    push_bind(&mut v, KeySpec::Char('p'), &ctrl, Action::OpenCommandPalette, InputMode::Normal);
    push_bind(&mut v, KeySpec::Named(NamedKey::Up), &none, Action::PrevStation, InputMode::Normal);
    push_bind(&mut v, KeySpec::Char('k'), &none, Action::PrevStation, InputMode::Normal);
    push_bind(&mut v, KeySpec::Named(NamedKey::Down), &none, Action::NextStation, InputMode::Normal);
    push_bind(&mut v, KeySpec::Char('j'), &none, Action::NextStation, InputMode::Normal);
    push_bind(&mut v, KeySpec::Char('l'), &none, Action::StepSettingForward, InputMode::Normal);
    push_bind(&mut v, KeySpec::Named(NamedKey::Right), &none, Action::StepSettingForward, InputMode::Normal);
    push_bind(&mut v, KeySpec::Named(NamedKey::Left), &none, Action::StepSettingBackward, InputMode::Normal);
    push_bind(&mut v, KeySpec::Char('a'), &none, Action::StepSettingBackward, InputMode::Normal);
    push_bind(&mut v, KeySpec::Named(NamedKey::Enter), &none, Action::PlaySelected, InputMode::Normal);
    push_bind(&mut v, KeySpec::Char(' '), &none, Action::TogglePause, InputMode::Normal);
    push_bind(&mut v, KeySpec::Char('s'), &none, Action::Stop, InputMode::Normal);
    push_bind(&mut v, KeySpec::Char('r'), &none, Action::RetryStream, InputMode::Normal);
    push_bind(&mut v, KeySpec::Char('+'), &none, Action::VolumeUp, InputMode::Normal);
    push_bind(&mut v, KeySpec::Char('='), &none, Action::VolumeUp, InputMode::Normal);
    push_bind(&mut v, KeySpec::Char('-'), &none, Action::VolumeDown, InputMode::Normal);
    push_bind(&mut v, KeySpec::Char('m'), &none, Action::ToggleMute, InputMode::Normal);
    push_bind(&mut v, KeySpec::Char('f'), &none, Action::RemoveLibrarySelection, InputMode::Normal);
    push_bind(&mut v, KeySpec::Char('u'), &none, Action::UndoRemoveLibrarySelection, InputMode::Normal);
    push_bind(&mut v, KeySpec::Named(NamedKey::Tab), &none, Action::NextGenre, InputMode::Normal);
    push_bind(&mut v, KeySpec::Named(NamedKey::Tab), &shift, Action::PrevGenre, InputMode::Normal);
    push_bind(&mut v, KeySpec::Char('l'), &ctrl, Action::EnterLibraryFilter, InputMode::Normal);
    push_bind(&mut v, KeySpec::Char('1'), &alt, Action::PlaySlot(1), InputMode::Normal);
    push_bind(&mut v, KeySpec::Char('2'), &alt, Action::PlaySlot(2), InputMode::Normal);
    push_bind(&mut v, KeySpec::Char('3'), &alt, Action::PlaySlot(3), InputMode::Normal);
    push_bind(&mut v, KeySpec::Char('4'), &alt, Action::PlaySlot(4), InputMode::Normal);
    push_bind(&mut v, KeySpec::Char('5'), &alt, Action::PlaySlot(5), InputMode::Normal);
    push_bind(&mut v, KeySpec::Char('1'), &ctrl, Action::AssignSlot(1), InputMode::Normal);
    push_bind(&mut v, KeySpec::Char('2'), &ctrl, Action::AssignSlot(2), InputMode::Normal);
    push_bind(&mut v, KeySpec::Char('3'), &ctrl, Action::AssignSlot(3), InputMode::Normal);
    push_bind(&mut v, KeySpec::Char('4'), &ctrl, Action::AssignSlot(4), InputMode::Normal);
    push_bind(&mut v, KeySpec::Char('5'), &ctrl, Action::AssignSlot(5), InputMode::Normal);
    push_bind(&mut v, KeySpec::Char('*'), &none, Action::ToggleFavorite, InputMode::Normal);
    push_bind(&mut v, KeySpec::Char('G'), &none, Action::NumberJumpConfirm, InputMode::Normal);
    push_bind(&mut v, KeySpec::Char('?'), &none, Action::ToggleHelp, InputMode::Normal);
    push_bind(&mut v, KeySpec::Char('h'), &none, Action::ToggleHelp, InputMode::Normal);
    push_bind(&mut v, KeySpec::Char('i'), &none, Action::ToggleStationDetails, InputMode::Normal);
    push_bind(&mut v, KeySpec::Char('g'), &none, Action::ToggleRecentTracks, InputMode::Normal);
    push_bind(&mut v, KeySpec::Char('d'), &none, Action::TogglePlaybackDoctor, InputMode::Normal);
    push_bind(&mut v, KeySpec::Char('b'), &none, Action::CycleLayout, InputMode::Normal);
    push_bind(&mut v, KeySpec::Char('v'), &none, Action::ToggleVisualizerMode, InputMode::Normal);
    push_bind(&mut v, KeySpec::Char(','), &none, Action::ToggleSettings, InputMode::Normal);
    push_bind(&mut v, KeySpec::Char('t'), &none, Action::ToggleSleepTimer, InputMode::Normal);
    push_bind(&mut v, KeySpec::Char('e'), &none, Action::ExportLibrary, InputMode::Normal);
    push_bind(&mut v, KeySpec::Function(6), &none, Action::ToggleMiniMode, InputMode::Normal);
    assert(bindings_view(v@) =~= normal_mode_table());
    v
}

/// The bindings of `search_mode_defaults`, in order.
pub open spec fn search_mode_table() -> Seq<KeyBindingView> {
    seq![
        entry(KeySpec::Named(NamedKey::Esc), Seq::empty(), Action::ExitSearch, InputMode::Search),
        entry(KeySpec::Named(NamedKey::Enter), seq![Modifier::Ctrl], Action::SearchAudition, InputMode::Search),
        entry(KeySpec::Char(' '), Seq::empty(), Action::SearchAudition, InputMode::Search),
        entry(KeySpec::Named(NamedKey::Enter), Seq::empty(), Action::SearchConfirm, InputMode::Search),
        entry(KeySpec::Named(NamedKey::Up), Seq::empty(), Action::SearchHistoryUp, InputMode::Search),
        entry(KeySpec::Named(NamedKey::Down), Seq::empty(), Action::SearchHistoryDown, InputMode::Search),
        entry(KeySpec::Named(NamedKey::Backspace), Seq::empty(), Action::SearchBackspace, InputMode::Search),
        entry(KeySpec::Char('c'), seq![Modifier::Ctrl], Action::Quit, InputMode::Search),
        entry(KeySpec::Char('-'), seq![Modifier::Ctrl], Action::VolumeDown, InputMode::Search),
        entry(KeySpec::Char('-'), seq![Modifier::Alt], Action::VolumeDown, InputMode::Search),
        entry(KeySpec::Char('+'), seq![Modifier::Ctrl], Action::VolumeUp, InputMode::Search),
        entry(KeySpec::Char('+'), seq![Modifier::Alt], Action::VolumeUp, InputMode::Search),
        entry(KeySpec::Char('='), seq![Modifier::Ctrl], Action::VolumeUp, InputMode::Search),
        entry(KeySpec::Char('='), seq![Modifier::Alt], Action::VolumeUp, InputMode::Search),
        entry(KeySpec::Char('m'), seq![Modifier::Ctrl], Action::ToggleMute, InputMode::Search),
        entry(KeySpec::Char('m'), seq![Modifier::Alt], Action::ToggleMute, InputMode::Search),
    ]
}

pub fn search_mode_defaults() -> (r: Vec<KeyBinding>)
    ensures
        bindings_view(r@) == search_mode_table(),
{
    let mut v: Vec<KeyBinding> = Vec::new();
    let none: [Modifier; 0] = [];
    let ctrl: [Modifier; 1] = [Modifier::Ctrl];
    let alt: [Modifier; 1] = [Modifier::Alt];
    let shift: [Modifier; 1] = [Modifier::Shift];
    assert(none@ == Seq::<Modifier>::empty());
    assert(ctrl@ == seq![Modifier::Ctrl]);
    assert(alt@ == seq![Modifier::Alt]);
    assert(shift@ == seq![Modifier::Shift]);
    push_bind(&mut v, KeySpec::Named(NamedKey::Esc), &none, Action::ExitSearch, InputMode::Search);
    push_bind(&mut v, KeySpec::Named(NamedKey::Enter), &ctrl, Action::SearchAudition, InputMode::Search);
    push_bind(&mut v, KeySpec::Char(' '), &none, Action::SearchAudition, InputMode::Search);
    push_bind(&mut v, KeySpec::Named(NamedKey::Enter), &none, Action::SearchConfirm, InputMode::Search);
    push_bind(&mut v, KeySpec::Named(NamedKey::Up), &none, Action::SearchHistoryUp, InputMode::Search);
    push_bind(&mut v, KeySpec::Named(NamedKey::Down), &none, Action::SearchHistoryDown, InputMode::Search);
    push_bind(&mut v, KeySpec::Named(NamedKey::Backspace), &none, Action::SearchBackspace, InputMode::Search);
    push_bind(&mut v, KeySpec::Char('c'), &ctrl, Action::Quit, InputMode::Search);
    push_bind(&mut v, KeySpec::Char('-'), &ctrl, Action::VolumeDown, InputMode::Search);
    push_bind(&mut v, KeySpec::Char('-'), &alt, Action::VolumeDown, InputMode::Search);
    push_bind(&mut v, KeySpec::Char('+'), &ctrl, Action::VolumeUp, InputMode::Search);
    push_bind(&mut v, KeySpec::Char('+'), &alt, Action::VolumeUp, InputMode::Search);
    push_bind(&mut v, KeySpec::Char('='), &ctrl, Action::VolumeUp, InputMode::Search);
    push_bind(&mut v, KeySpec::Char('='), &alt, Action::VolumeUp, InputMode::Search);
    push_bind(&mut v, KeySpec::Char('m'), &ctrl, Action::ToggleMute, InputMode::Search);
    push_bind(&mut v, KeySpec::Char('m'), &alt, Action::ToggleMute, InputMode::Search);
    assert(bindings_view(v@) =~= search_mode_table());
    v
}

/// The bindings of `command_palette_defaults`, in order.
pub open spec fn command_palette_table() -> Seq<KeyBindingView> {
    seq![
        entry(KeySpec::Char('c'), seq![Modifier::Ctrl], Action::Quit, InputMode::CommandPalette),
        entry(KeySpec::Named(NamedKey::Esc), Seq::empty(), Action::CommandPaletteClose, InputMode::CommandPalette),
        entry(KeySpec::Named(NamedKey::Enter), Seq::empty(), Action::CommandPaletteConfirm, InputMode::CommandPalette),
        entry(KeySpec::Named(NamedKey::Backspace), Seq::empty(), Action::CommandPaletteBackspace, InputMode::CommandPalette),
        entry(KeySpec::Named(NamedKey::Up), Seq::empty(), Action::CommandPalettePrev, InputMode::CommandPalette),
        entry(KeySpec::Named(NamedKey::Down), Seq::empty(), Action::CommandPaletteNext, InputMode::CommandPalette),
    ]
}

pub fn command_palette_defaults() -> (r: Vec<KeyBinding>)
    ensures
        bindings_view(r@) == command_palette_table(),
{
    let mut v: Vec<KeyBinding> = Vec::new();
    let none: [Modifier; 0] = [];
    let ctrl: [Modifier; 1] = [Modifier::Ctrl];
    let alt: [Modifier; 1] = [Modifier::Alt];
    let shift: [Modifier; 1] = [Modifier::Shift];
    assert(none@ == Seq::<Modifier>::empty());
    assert(ctrl@ == seq![Modifier::Ctrl]);
    assert(alt@ == seq![Modifier::Alt]);
    assert(shift@ == seq![Modifier::Shift]);
    push_bind(&mut v, KeySpec::Char('c'), &ctrl, Action::Quit, InputMode::CommandPalette);
    push_bind(&mut v, KeySpec::Named(NamedKey::Esc), &none, Action::CommandPaletteClose, InputMode::CommandPalette);
    push_bind(&mut v, KeySpec::Named(NamedKey::Enter), &none, Action::CommandPaletteConfirm, InputMode::CommandPalette);
    push_bind(&mut v, KeySpec::Named(NamedKey::Backspace), &none, Action::CommandPaletteBackspace, InputMode::CommandPalette);
    push_bind(&mut v, KeySpec::Named(NamedKey::Up), &none, Action::CommandPalettePrev, InputMode::CommandPalette);
    push_bind(&mut v, KeySpec::Named(NamedKey::Down), &none, Action::CommandPaletteNext, InputMode::CommandPalette);
    assert(bindings_view(v@) =~= command_palette_table());
    v
}

/// The bindings of `sleep_timer_defaults`, in order.
pub open spec fn sleep_timer_table() -> Seq<KeyBindingView> {
    seq![
        entry(KeySpec::Char('c'), seq![Modifier::Ctrl], Action::Quit, InputMode::SleepTimer),
        entry(KeySpec::Named(NamedKey::Up), Seq::empty(), Action::SleepTimerIncrease, InputMode::SleepTimer),
        entry(KeySpec::Char('+'), Seq::empty(), Action::SleepTimerIncrease, InputMode::SleepTimer),
        entry(KeySpec::Char('='), Seq::empty(), Action::SleepTimerIncrease, InputMode::SleepTimer),
        entry(KeySpec::Named(NamedKey::Down), Seq::empty(), Action::SleepTimerDecrease, InputMode::SleepTimer),
        entry(KeySpec::Char('-'), Seq::empty(), Action::SleepTimerDecrease, InputMode::SleepTimer),
        entry(KeySpec::Char('1'), Seq::empty(), Action::SleepTimerPreset(15), InputMode::SleepTimer),
        entry(KeySpec::Char('2'), Seq::empty(), Action::SleepTimerPreset(30), InputMode::SleepTimer),
        entry(KeySpec::Char('3'), Seq::empty(), Action::SleepTimerPreset(45), InputMode::SleepTimer),
        entry(KeySpec::Char('4'), Seq::empty(), Action::SleepTimerPreset(60), InputMode::SleepTimer),
        entry(KeySpec::Char('5'), Seq::empty(), Action::SleepTimerPreset(90), InputMode::SleepTimer),
        entry(KeySpec::Char('6'), Seq::empty(), Action::SleepTimerPreset(120), InputMode::SleepTimer),
        entry(KeySpec::Char('0'), Seq::empty(), Action::SleepTimerClear, InputMode::SleepTimer),
        entry(KeySpec::Char('c'), Seq::empty(), Action::SleepTimerClear, InputMode::SleepTimer),
        entry(KeySpec::Named(NamedKey::Esc), Seq::empty(), Action::ToggleSleepTimer, InputMode::SleepTimer),
        entry(KeySpec::Named(NamedKey::Enter), Seq::empty(), Action::ToggleSleepTimer, InputMode::SleepTimer),
        entry(KeySpec::Char('t'), Seq::empty(), Action::ToggleSleepTimer, InputMode::SleepTimer),
        entry(KeySpec::Char('q'), Seq::empty(), Action::ToggleSleepTimer, InputMode::SleepTimer),
    ]
}

pub fn sleep_timer_defaults() -> (r: Vec<KeyBinding>)
    ensures
        bindings_view(r@) == sleep_timer_table(),
{
    let mut v: Vec<KeyBinding> = Vec::new();
    let none: [Modifier; 0] = [];
    let ctrl: [Modifier; 1] = [Modifier::Ctrl];
    let alt: [Modifier; 1] = [Modifier::Alt];
    let shift: [Modifier; 1] = [Modifier::Shift];
    assert(none@ == Seq::<Modifier>::empty());
    assert(ctrl@ == seq![Modifier::Ctrl]);
    assert(alt@ == seq![Modifier::Alt]);
    assert(shift@ == seq![Modifier::Shift]);
    push_bind(&mut v, KeySpec::Char('c'), &ctrl, Action::Quit, InputMode::SleepTimer);
    push_bind(&mut v, KeySpec::Named(NamedKey::Up), &none, Action::SleepTimerIncrease, InputMode::SleepTimer);
    push_bind(&mut v, KeySpec::Char('+'), &none, Action::SleepTimerIncrease, InputMode::SleepTimer);
    push_bind(&mut v, KeySpec::Char('='), &none, Action::SleepTimerIncrease, InputMode::SleepTimer);
    push_bind(&mut v, KeySpec::Named(NamedKey::Down), &none, Action::SleepTimerDecrease, InputMode::SleepTimer);
    push_bind(&mut v, KeySpec::Char('-'), &none, Action::SleepTimerDecrease, InputMode::SleepTimer);
    push_bind(&mut v, KeySpec::Char('1'), &none, Action::SleepTimerPreset(15), InputMode::SleepTimer);
    push_bind(&mut v, KeySpec::Char('2'), &none, Action::SleepTimerPreset(30), InputMode::SleepTimer);
    push_bind(&mut v, KeySpec::Char('3'), &none, Action::SleepTimerPreset(45), InputMode::SleepTimer);
    push_bind(&mut v, KeySpec::Char('4'), &none, Action::SleepTimerPreset(60), InputMode::SleepTimer);
    push_bind(&mut v, KeySpec::Char('5'), &none, Action::SleepTimerPreset(90), InputMode::SleepTimer);
    push_bind(&mut v, KeySpec::Char('6'), &none, Action::SleepTimerPreset(120), InputMode::SleepTimer);
    push_bind(&mut v, KeySpec::Char('0'), &none, Action::SleepTimerClear, InputMode::SleepTimer);
    push_bind(&mut v, KeySpec::Char('c'), &none, Action::SleepTimerClear, InputMode::SleepTimer);
    push_bind(&mut v, KeySpec::Named(NamedKey::Esc), &none, Action::ToggleSleepTimer, InputMode::SleepTimer);
    push_bind(&mut v, KeySpec::Named(NamedKey::Enter), &none, Action::ToggleSleepTimer, InputMode::SleepTimer);
    push_bind(&mut v, KeySpec::Char('t'), &none, Action::ToggleSleepTimer, InputMode::SleepTimer);
    push_bind(&mut v, KeySpec::Char('q'), &none, Action::ToggleSleepTimer, InputMode::SleepTimer);
    assert(bindings_view(v@) =~= sleep_timer_table());
    v
}

/// The bindings of `library_filter_defaults`, in order.
pub open spec fn library_filter_table() -> Seq<KeyBindingView> {
    seq![
        entry(KeySpec::Char('c'), seq![Modifier::Ctrl], Action::Quit, InputMode::LibraryFilter),
        entry(KeySpec::Named(NamedKey::Esc), Seq::empty(), Action::ExitLibraryFilter, InputMode::LibraryFilter),
        entry(KeySpec::Function(6), Seq::empty(), Action::ToggleMiniMode, InputMode::LibraryFilter),
        entry(KeySpec::Named(NamedKey::Enter), Seq::empty(), Action::LibraryFilterConfirm, InputMode::LibraryFilter),
        entry(KeySpec::Named(NamedKey::Backspace), Seq::empty(), Action::LibraryFilterBackspace, InputMode::LibraryFilter),
        entry(KeySpec::Named(NamedKey::Up), Seq::empty(), Action::PrevStation, InputMode::LibraryFilter),
        entry(KeySpec::Named(NamedKey::Down), Seq::empty(), Action::NextStation, InputMode::LibraryFilter),
        entry(KeySpec::Char('k'), Seq::empty(), Action::PrevStation, InputMode::LibraryFilter),
        entry(KeySpec::Char('j'), Seq::empty(), Action::NextStation, InputMode::LibraryFilter),
    ]
}

pub fn library_filter_defaults() -> (r: Vec<KeyBinding>)
    ensures
        bindings_view(r@) == library_filter_table(),
{
    let mut v: Vec<KeyBinding> = Vec::new();
    let none: [Modifier; 0] = [];
    let ctrl: [Modifier; 1] = [Modifier::Ctrl];
    let alt: [Modifier; 1] = [Modifier::Alt];
    let shift: [Modifier; 1] = [Modifier::Shift];
    assert(none@ == Seq::<Modifier>::empty());
    assert(ctrl@ == seq![Modifier::Ctrl]);
    assert(alt@ == seq![Modifier::Alt]);
    assert(shift@ == seq![Modifier::Shift]);
    push_bind(&mut v, KeySpec::Char('c'), &ctrl, Action::Quit, InputMode::LibraryFilter);
    push_bind(&mut v, KeySpec::Named(NamedKey::Esc), &none, Action::ExitLibraryFilter, InputMode::LibraryFilter);
    push_bind(&mut v, KeySpec::Function(6), &none, Action::ToggleMiniMode, InputMode::LibraryFilter);
    push_bind(&mut v, KeySpec::Named(NamedKey::Enter), &none, Action::LibraryFilterConfirm, InputMode::LibraryFilter);
    push_bind(&mut v, KeySpec::Named(NamedKey::Backspace), &none, Action::LibraryFilterBackspace, InputMode::LibraryFilter);
    push_bind(&mut v, KeySpec::Named(NamedKey::Up), &none, Action::PrevStation, InputMode::LibraryFilter);
    push_bind(&mut v, KeySpec::Named(NamedKey::Down), &none, Action::NextStation, InputMode::LibraryFilter);
    push_bind(&mut v, KeySpec::Char('k'), &none, Action::PrevStation, InputMode::LibraryFilter);
    push_bind(&mut v, KeySpec::Char('j'), &none, Action::NextStation, InputMode::LibraryFilter);
    assert(bindings_view(v@) =~= library_filter_table());
    v
}

/// All default bindings: Normal, Search, CommandPalette, SleepTimer and
/// LibraryFilter tables, in that order.
pub open spec fn default_table() -> Seq<KeyBindingView> {
    normal_mode_table() + search_mode_table() + command_palette_table() + sleep_timer_table()
        + library_filter_table()
}

fn append_bindings(v: &mut Vec<KeyBinding>, mut more: Vec<KeyBinding>)
    ensures
        bindings_view(final(v)@) == bindings_view(old(v)@) + bindings_view(more@),
{
    let ghost m = more@;
    v.append(&mut more);
    assert(bindings_view(v@) =~= bindings_view(old(v)@) + bindings_view(m));
}

pub fn default_bindings() -> (r: Vec<KeyBinding>)
    ensures
        bindings_view(r@) == default_table(),
{
    let mut bindings: Vec<KeyBinding> = Vec::new();
    assert(bindings_view(bindings@) =~= Seq::<KeyBindingView>::empty());
    append_bindings(&mut bindings, normal_mode_defaults());
    append_bindings(&mut bindings, search_mode_defaults());
    append_bindings(&mut bindings, command_palette_defaults());
    append_bindings(&mut bindings, sleep_timer_defaults());
    append_bindings(&mut bindings, library_filter_defaults());
    assert(bindings_view(bindings@) =~= default_table());
    bindings
}

} // verus!
