//! The input mode of the interface, which decides how key presses are routed.

use vstd::prelude::*;

verus! {

/// How keyboard events are routed.
#[derive(Debug, Clone, Copy, PartialEq, Eq, Hash, Structural)]
pub enum InputMode {
    Normal,
    Search,
    /// Searchable action launcher; its keys never reach the normal shortcuts.
    CommandPalette,
    /// Sleep-timer overlay with a table of its own.
    SleepTimer,
    /// Substring filter over the library stations.
    LibraryFilter,
}

} // verus!
