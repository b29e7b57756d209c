//! Turning what was read from disk into a configuration: `pulsedeck.toml`
//! when it exists, else the settings of a legacy `library.json`. Reading and
//! writing the files is the caller's part; it hands over the text read or
//! the error's message.

use vstd::prelude::*;
use crate::config_toml::parse::{
    parse_toml, push_all, strings_view, config_matches_document, document_warnings,
    parse_error_text, toml_failure, failure_location,
};
use crate::config_toml::{AppConfig, AudioConfig, KeybindingsConfig, PlaybackConfig, UiConfig, is_default_config};
use crate::audio::engine::opt_view;
use crate::text::{str_chars, string_from_chars, string_from_str};

verus! {

/// The configuration loaded, the document to write back around it, and the
/// warnings of loading.
#[derive(Debug)]
pub struct LoadResult {
    pub config: AppConfig,
    pub preserved: toml::Value,
    pub warnings: Vec<String>,
}

/// An empty TOML table (`toml::Value::Table` of a new map).
#[verifier::external_body]
fn empty_document() -> toml::Value {
    toml::Value::Table(toml::map::Map::new())
}

/// The string value of `key` in the object `section` of the JSON text
/// `content`; `None` when the text is not JSON or the value is missing or not
/// a string.
pub uninterp spec fn json_str_field_value(content: Seq<char>, section: Seq<char>, key: Seq<char>) -> Option<Seq<char>>;

/// The boolean value of `key` in the object `section` of the JSON text
/// `content`; `None` when the text is not JSON or the value is missing or not
/// a boolean.
pub uninterp spec fn json_bool_field_value(content: Seq<char>, section: Seq<char>, key: Seq<char>) -> Option<bool>;

/// Parses `content` as JSON (`serde_json::from_str` to `serde_json::Value`)
/// and looks up `section`, then `key` (`Value::get`), keeping a string
/// (`Value::as_str`). Each lookup parses the text again.
#[verifier::external_body]
fn json_str_field(content: &str, section: &str, key: &str) -> (r: Option<String>)
    ensures
        opt_view(r) == json_str_field_value(content@, section@, key@),
{
    let json: serde_json::Value = serde_json::from_str(content).ok()?;
    json.get(section)?.get(key)?.as_str().map(|s| s.to_string())
}

/// As `json_str_field`, keeping a boolean (`Value::as_bool`).
#[verifier::external_body]
fn json_bool_field(content: &str, section: &str, key: &str) -> (r: Option<bool>)
    ensures
        r == json_bool_field_value(content@, section@, key@),
{
    let json: serde_json::Value = serde_json::from_str(content).ok()?;
    json.get(section)?.get(key)?.as_bool()
}

pub open spec fn read_warning(path: Seq<char>, error: Seq<char>) -> Seq<char> {
    "Could not read "@ + path + ": "@ + error
}

pub open spec fn parse_warning(path: Seq<char>, error: Seq<char>) -> Seq<char> {
    "Could not parse "@ + path + ": "@ + error
}

pub open spec fn migrated_warning(path: Seq<char>) -> Seq<char> {
    "Migrated settings from "@ + path
}

fn message(prefix: &str, path: &str, sep: &str, detail: &str) -> (s: String)
    ensures
        s@ == prefix@ + path@ + sep@ + detail@,
{
    let mut out = str_chars(prefix);
    push_all(&mut out, str_chars(path).as_slice());
    push_all(&mut out, str_chars(sep).as_slice());
    push_all(&mut out, str_chars(detail).as_slice());
    string_from_chars(out.as_slice())
}

/// The configuration of `pulsedeck.toml` (at `path`, as shown) from its text,
/// or the error of reading it. A file that could not be read or parsed gives
/// the defaults, with a warning that says why.
pub fn load_from_toml(path: &str, content: Result<String, String>) -> (r: LoadResult)
    ensures
        match content {
            Err(e) => is_default_config(r.config) && strings_view(r.warnings@) == seq![read_warning(path@, e@)],
            Ok(text) => match toml_failure(text@) {
                Some((m, offset)) => {
                    let (line, col) = failure_location(vstd::utf8::encode_utf8(text@), offset);
                    is_default_config(r.config)
                        && strings_view(r.warnings@) == seq![parse_warning(path@, parse_error_text(m, line, col))]
                },
                None => config_matches_document(r.config, text@) && strings_view(r.warnings@) == document_warnings(text@),
            },
        },
{
    let text = match content {
        Ok(c) => c,
        Err(e) => {
            proof {
                reveal_strlit("Could not read ");
                reveal_strlit(": ");
            }
            let w = message("Could not read ", path, ": ", e.as_str());
            let warnings = vec![w];
            assert(strings_view(warnings@) =~= seq![read_warning(path@, e@)]);
            return LoadResult { config: AppConfig::default(), preserved: empty_document(), warnings };
        },
    };
    match parse_toml(text.as_str()) {
        Ok(p) => LoadResult { config: p.config, preserved: p.preserved, warnings: p.warnings },
        Err(err) => {
            proof {
                reveal_strlit("Could not parse ");
                reveal_strlit(": ");
            }
            let shown = err.describe();
            let w = message("Could not parse ", path, ": ", shown.as_str());
            let warnings = vec![w];
            assert(strings_view(warnings@) =~= seq![parse_warning(path@, shown@)]);
            LoadResult { config: AppConfig::default(), preserved: empty_document(), warnings }
        },
    }
}

/// The configuration of the values read from a legacy library's settings:
/// the output device, the theme (`Retrowave` when absent, taken as written
/// otherwise), the notification, stream-metadata and playback switches;
/// everything else has its default.
pub open spec fn legacy_config_is(
    c: AppConfig,
    output_device_name: Option<Seq<char>>,
    theme: Option<Seq<char>>,
    notifications_enabled: Option<bool>,
    stream_metadata_enabled: Option<bool>,
    autoplay_last: Option<bool>,
    save_history: Option<bool>,
) -> bool {
    let or = |v: Option<bool>, default: bool| match v {
        Some(b) => b,
        None => default,
    };
    &&& opt_view(c.audio.output_device) == output_device_name
    &&& c.audio.default_volume == 80
    &&& c.ui.theme@ == (match theme {
        Some(t) => t,
        None => "Retrowave"@,
    })
    &&& c.ui.notifications_enabled == or(notifications_enabled, true)
    &&& c.ui.stream_metadata_enabled == or(stream_metadata_enabled, true)
    &&& c.playback.autoplay_last == or(autoplay_last, false)
    &&& c.playback.save_history == or(save_history, false)
    &&& c.keybindings.path is None
}

/// The settings of a legacy `library.json` text, as a configuration.
pub open spec fn legacy_config_matches(c: AppConfig, content: Seq<char>) -> bool {
    legacy_config_is(
        c,
        json_str_field_value(content, "settings"@, "output_device_name"@),
        json_str_field_value(content, "settings"@, "theme"@),
        json_bool_field_value(content, "settings"@, "notifications_enabled"@),
        json_bool_field_value(content, "settings"@, "stream_metadata_enabled"@),
        json_bool_field_value(content, "settings"@, "autoplay_last"@),
        json_bool_field_value(content, "settings"@, "save_history"@),
    )
}

/// The configuration of the values read from a legacy library's settings.
pub fn config_from_legacy_settings(
    output_device_name: Option<String>,
    theme: Option<String>,
    notifications_enabled: Option<bool>,
    stream_metadata_enabled: Option<bool>,
    autoplay_last: Option<bool>,
    save_history: Option<bool>,
) -> (c: AppConfig)
    ensures
        legacy_config_is(
            c,
            opt_view(output_device_name),
            opt_view(theme),
            notifications_enabled,
            stream_metadata_enabled,
            autoplay_last,
            save_history,
        ),
{
    let theme = match theme {
        Some(t) => t,
        None => string_from_str("Retrowave"),
    };
    proof {
        reveal_strlit("Retrowave");
    }
    let or = |v: Option<bool>, default: bool| -> (r: bool)
        ensures
            r == match v {
                Some(b) => b,
                None => default,
            },
    {
        match v {
            Some(b) => b,
            None => default,
        }
    };
    AppConfig {
        audio: AudioConfig { output_device: output_device_name, default_volume: 80 },
        ui: UiConfig {
            theme,
            notifications_enabled: or(notifications_enabled, true),
            stream_metadata_enabled: or(stream_metadata_enabled, true),
        },
        playback: PlaybackConfig { autoplay_last: or(autoplay_last, false), save_history: or(save_history, false) },
        keybindings: KeybindingsConfig::default(),
    }
}

/// The configuration kept in the `settings` object of a legacy library
/// file; everything, when the text is not JSON or has no settings, takes
/// its default.
pub fn extract_settings_from_json(content: &str) -> (c: AppConfig)
    ensures
        legacy_config_matches(c, content@),
{
    config_from_legacy_settings(
        json_str_field(content, "settings", "output_device_name"),
        json_str_field(content, "settings", "theme"),
        json_bool_field(content, "settings", "notifications_enabled"),
        json_bool_field(content, "settings", "stream_metadata_enabled"),
        json_bool_field(content, "settings", "autoplay_last"),
        json_bool_field(content, "settings", "save_history"),
    )
}

/// The configuration taken over from a legacy `library.json` (at `path`, as
/// shown), with a warning that says so; the defaults when it could not be
/// read.
pub fn migrate_from_library_json(path: &str, content: Result<String, String>) -> (r: LoadResult)
    ensures
        match content {
            Err(e) => is_default_config(r.config) && strings_view(r.warnings@) == seq![read_warning(path@, e@)],
            Ok(text) => legacy_config_matches(r.config, text@) && strings_view(r.warnings@) == seq![migrated_warning(path@)],
        },
{
    match content {
        Err(e) => {
            proof {
                reveal_strlit("Could not read ");
                reveal_strlit(": ");
            }
            let w = message("Could not read ", path, ": ", e.as_str());
            let warnings = vec![w];
            assert(strings_view(warnings@) =~= seq![read_warning(path@, e@)]);
            LoadResult { config: AppConfig::default(), preserved: empty_document(), warnings }
        },
        Ok(text) => {
            let config = extract_settings_from_json(text.as_str());
            proof {
                reveal_strlit("Migrated settings from ");
                reveal_strlit("");
            }
            let w = message("Migrated settings from ", path, "", "");
            let warnings = vec![w];
            assert(strings_view(warnings@) =~= seq![migrated_warning(path@)]);
            LoadResult { config, preserved: empty_document(), warnings }
        },
    }
}

} // verus!
