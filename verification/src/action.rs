//! The user actions that key presses resolve to.

use vstd::prelude::*;

verus! {

/// A user action, as dispatched by the key bindings.
#[derive(Debug, Clone, Copy, PartialEq, Eq, Hash, Structural)]
pub enum Action {
    NextStation,
    PrevStation,
    PlaySelected,
    TogglePause,
    Stop,
    RetryStream,
    VolumeUp,
    VolumeDown,
    ToggleMute,
    EnterSearch,
    ExitSearch,
    SearchBackspace,
    SearchConfirm,
    SearchAudition,
    OpenCommandPalette,
    CommandPaletteConfirm,
    CommandPaletteClose,
    CommandPaletteBackspace,
    CommandPaletteNext,
    CommandPalettePrev,
    RemoveLibrarySelection,
    UndoRemoveLibrarySelection,
    NextGenre,
    PrevGenre,
    EnterLibraryFilter,
    ExitLibraryFilter,
    LibraryFilterBackspace,
    LibraryFilterConfirm,
    ToggleFavorite,
    NumberJumpConfirm,
    NumberJumpCancel,
    CycleLayout,
    ToggleHelp,
    ToggleStationDetails,
    ToggleRecentTracks,
    TogglePlaybackDoctor,
    StepSettingForward,
    StepSettingBackward,
    ToggleSettings,
    CycleThemeSetting,
    ToggleStreamMetadata,
    RefreshLibraryMetadata,
    ToggleVisualizerMode,
    ToggleMiniMode,
    Quit,
    ToggleSleepTimer,
    SleepTimerIncrease,
    SleepTimerDecrease,
    SleepTimerClear,
    ExportLibrary,
    Tick,
    Discover,
    SleepTimerPreset(u16),
    SearchInput(char),
    LibraryFilterInput(char),
    PlaySlot(u8),
    NumberJumpDigit(char),
    CommandPaletteInput(char),
    AssignSlot(u8),
    SearchHistoryUp,
    SearchHistoryDown,
}

} // verus!
