//! The application configuration kept in `pulsedeck.toml`.

pub mod hot_reload;
pub mod io;
pub mod parse;
pub mod serialize;

use vstd::prelude::*;
use crate::text::string_from_str;

verus! {

/// Audio output settings.
#[derive(Debug, Clone, PartialEq)]
pub struct AudioConfig {
    pub output_device: Option<String>,
    /// Volume level, 0 to 100.
    pub default_volume: u8,
}

impl Default for AudioConfig {
    fn default() -> (c: Self)
        ensures
            c.output_device is None,
            c.default_volume == 80,
    {
        AudioConfig { output_device: None, default_volume: 80 }
    }
}

/// Interface settings.
#[derive(Debug, Clone, PartialEq)]
pub struct UiConfig {
    pub theme: String,
    pub notifications_enabled: bool,
    pub stream_metadata_enabled: bool,
}

impl Default for UiConfig {
    fn default() -> (c: Self)
        ensures
            c.theme@ == "Retrowave"@,
            c.notifications_enabled,
            c.stream_metadata_enabled,
    {
        UiConfig {
            theme: string_from_str("Retrowave"),
            notifications_enabled: true,
            stream_metadata_enabled: true,
        }
    }
}

/// Playback behaviour settings.
#[derive(Debug, Clone, PartialEq)]
pub struct PlaybackConfig {
    pub autoplay_last: bool,
    pub save_history: bool,
}

impl Default for PlaybackConfig {
    fn default() -> (c: Self)
        ensures
            !c.autoplay_last,
            !c.save_history,
    {
        PlaybackConfig { autoplay_last: false, save_history: false }
    }
}

/// Where the keybindings file is, when not in the default place.
#[derive(Debug, Clone, PartialEq)]
pub struct KeybindingsConfig {
    pub path: Option<String>,
}

impl Default for KeybindingsConfig {
    fn default() -> (c: Self)
        ensures
            c.path is None,
    {
        KeybindingsConfig { path: None }
    }
}

/// The whole application configuration.
#[derive(Debug, Clone, PartialEq)]
pub struct AppConfig {
    pub audio: AudioConfig,
    pub ui: UiConfig,
    pub playback: PlaybackConfig,
    pub keybindings: KeybindingsConfig,
}

/// Every section has its default values.
pub open spec fn is_default_config(c: AppConfig) -> bool {
    &&& c.audio.output_device is None
    &&& c.audio.default_volume == 80
    &&& c.ui.theme@ == "Retrowave"@
    &&& c.ui.notifications_enabled
    &&& c.ui.stream_metadata_enabled
    &&& !c.playback.autoplay_last
    &&& !c.playback.save_history
    &&& c.keybindings.path is None
}

impl Default for AppConfig {
    fn default() -> (c: Self)
        ensures
            is_default_config(c),
    {
        AppConfig {
            audio: AudioConfig::default(),
            ui: UiConfig::default(),
            playback: PlaybackConfig::default(),
            keybindings: KeybindingsConfig::default(),
        }
    }
}

} // verus!
