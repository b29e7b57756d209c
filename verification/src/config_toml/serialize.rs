//! Writing the configuration back: the values each section of
//! `pulsedeck.toml` receives, and the verdict of reading the written text
//! back.

use vstd::prelude::*;
use crate::audio::engine::opt_view;
use crate::config_toml::parse::{
    bool_field, config_matches_document, known_theme, parse_error_text, str_field, theme_of,
    volume_of, ParseError, ParseResult, ScalarView, TomlScalar,
};
use crate::config_toml::AppConfig;
use crate::text::string_from_str;

verus! {

/// One value written into the document: `key` of the table `section` is set
/// to `value`, or removed where `value` is `None`.
#[derive(Debug, Clone, PartialEq)]
pub struct TomlAssignment {
    pub section: String,
    pub key: String,
    pub value: Option<TomlScalar>,
}

/// An assignment by its plain values.
pub open spec fn assignment_view(a: TomlAssignment) -> (Seq<char>, Seq<char>, Option<ScalarView>) {
    (
        a.section@,
        a.key@,
        match a.value {
            Some(v) => Some(v@),
            None => None,
        },
    )
}

pub open spec fn assignments_view(s: Seq<TomlAssignment>) -> Seq<(Seq<char>, Seq<char>, Option<ScalarView>)> {
    s.map_values(|a: TomlAssignment| assignment_view(a))
}

/// A string value where there is one, else the removal of the key.
pub open spec fn opt_str_value(o: Option<String>) -> Option<ScalarView> {
    match o {
        Some(s) => Some(ScalarView::Str(s@)),
        None => None,
    }
}

/// The values written for `c`, section by section and in this order:
/// `audio` (output device, volume), `ui` (theme, notifications, stream
/// metadata), `playback` (autoplay, history), `keybindings` (path). An
/// absent output device or keybindings path removes its key.
pub open spec fn config_assignments_spec(c: AppConfig) -> Seq<(Seq<char>, Seq<char>, Option<ScalarView>)> {
    seq![
        ("audio"@, "output_device"@, opt_str_value(c.audio.output_device)),
        ("audio"@, "default_volume"@, Some(ScalarView::Int(c.audio.default_volume as i64))),
        ("ui"@, "theme"@, Some(ScalarView::Str(c.ui.theme@))),
        ("ui"@, "notifications_enabled"@, Some(ScalarView::Bool(c.ui.notifications_enabled))),
        ("ui"@, "stream_metadata_enabled"@, Some(ScalarView::Bool(c.ui.stream_metadata_enabled))),
        ("playback"@, "autoplay_last"@, Some(ScalarView::Bool(c.playback.autoplay_last))),
        ("playback"@, "save_history"@, Some(ScalarView::Bool(c.playback.save_history))),
        ("keybindings"@, "path"@, opt_str_value(c.keybindings.path)),
    ]
}

fn assign(section: &str, key: &str, value: Option<TomlScalar>) -> (a: TomlAssignment)
    ensures
        a.section@ == section@,
        a.key@ == key@,
        a.value == value,
{
    TomlAssignment { section: string_from_str(section), key: string_from_str(key), value }
}

fn opt_str_scalar(o: &Option<String>) -> (r: Option<TomlScalar>)
    ensures
        match r {
            Some(v) => opt_str_value(*o) == Some(v@),
            None => opt_str_value(*o) is None,
        },
{
    match o {
        Some(s) => Some(TomlScalar::Str(string_from_str(s.as_str()))),
        None => None,
    }
}

/// The values that writing `config` puts into the document.
pub fn config_assignments(config: &AppConfig) -> (r: Vec<TomlAssignment>)
    ensures
        assignments_view(r@) == config_assignments_spec(*config),
{
    proof {
        reveal_strlit("audio");
        reveal_strlit("output_device");
        reveal_strlit("default_volume");
        reveal_strlit("ui");
        reveal_strlit("theme");
        reveal_strlit("notifications_enabled");
        reveal_strlit("stream_metadata_enabled");
        reveal_strlit("playback");
        reveal_strlit("autoplay_last");
        reveal_strlit("save_history");
        reveal_strlit("keybindings");
        reveal_strlit("path");
    }
    let mut v: Vec<TomlAssignment> = Vec::new();
    v.push(assign("audio", "output_device", opt_str_scalar(&config.audio.output_device)));
    v.push(assign("audio", "default_volume", Some(TomlScalar::Int(config.audio.default_volume as i64))));
    v.push(assign("ui", "theme", Some(TomlScalar::Str(string_from_str(config.ui.theme.as_str())))));
    v.push(assign("ui", "notifications_enabled", Some(TomlScalar::Bool(config.ui.notifications_enabled))));
    v.push(assign("ui", "stream_metadata_enabled", Some(TomlScalar::Bool(config.ui.stream_metadata_enabled))));
    v.push(assign("playback", "autoplay_last", Some(TomlScalar::Bool(config.playback.autoplay_last))));
    v.push(assign("playback", "save_history", Some(TomlScalar::Bool(config.playback.save_history))));
    v.push(assign("keybindings", "path", opt_str_scalar(&config.keybindings.path)));
    assert(assignments_view(v@) =~= config_assignments_spec(*config));
    v
}

/// Two configurations hold the same values.
pub open spec fn same_config(a: AppConfig, b: AppConfig) -> bool {
    &&& opt_view(a.audio.output_device) == opt_view(b.audio.output_device)
    &&& a.audio.default_volume == b.audio.default_volume
    &&& a.ui.theme@ == b.ui.theme@
    &&& a.ui.notifications_enabled == b.ui.notifications_enabled
    &&& a.ui.stream_metadata_enabled == b.ui.stream_metadata_enabled
    &&& a.playback.autoplay_last == b.playback.autoplay_last
    &&& a.playback.save_history == b.playback.save_history
    &&& opt_view(a.keybindings.path) == opt_view(b.keybindings.path)
}

fn opt_string_same(a: &Option<String>, b: &Option<String>) -> (r: bool)
    ensures
        r == (opt_view(*a) == opt_view(*b)),
{
    match (a, b) {
        (Some(x), Some(y)) => *x == *y,
        (None, None) => true,
        _ => false,
    }
}

/// Whether two configurations hold the same values.
pub fn configs_equal(a: &AppConfig, b: &AppConfig) -> (r: bool)
    ensures
        r == same_config(*a, *b),
{
    opt_string_same(&a.audio.output_device, &b.audio.output_device)
        && a.audio.default_volume == b.audio.default_volume
        && a.ui.theme == b.ui.theme
        && a.ui.notifications_enabled == b.ui.notifications_enabled
        && a.ui.stream_metadata_enabled == b.ui.stream_metadata_enabled
        && a.playback.autoplay_last == b.playback.autoplay_last
        && a.playback.save_history == b.playback.save_history
        && opt_string_same(&a.keybindings.path, &b.keybindings.path)
}

/// The message of a written configuration that did not parse back.
pub open spec fn reparse_failure(message: Seq<char>, line: Option<usize>, col: Option<usize>) -> Seq<char> {
    "re-parse failed: "@ + parse_error_text(message, line, col)
}

/// The verdict on a configuration from what parsing its written text gave:
/// an error where that text did not parse, or parsed to other values.
pub fn round_trip_verdict(config: &AppConfig, reparsed: Result<ParseResult, ParseError>) -> (r: Result<(), String>)
    ensures
        match reparsed {
            Err(e) => r matches Err(m) && m@ == reparse_failure(e.message@, e.line, e.col),
            Ok(p) => if same_config(p.config, *config) {
                r is Ok
            } else {
                r matches Err(m) && m@ == "round-trip produced different config"@
            },
        },
{
    match reparsed {
        Err(e) => {
            proof {
                reveal_strlit("re-parse failed: ");
            }
            let mut out = crate::text::str_chars("re-parse failed: ");
            let d = e.describe();
            crate::config_toml::parse::push_all(&mut out, crate::text::str_chars(d.as_str()).as_slice());
            Err(crate::text::string_from_chars(out.as_slice()))
        },
        Ok(p) => {
            if configs_equal(&p.config, config) {
                Ok(())
            } else {
                proof {
                    reveal_strlit("round-trip produced different config");
                }
                Err(string_from_str("round-trip produced different config"))
            }
        },
    }
}

/// The document's value of `key` in `section` is the one assigned to it.
pub open spec fn holds_assignment(input: Seq<char>, a: (Seq<char>, Seq<char>, Option<ScalarView>)) -> bool {
    crate::config_toml::parse::toml_field_value(input, a.0, a.1) == a.2
}

/// What is written determines what is read back: a document that holds
/// each value written for `c`, where `c` has a known theme and a volume of
/// at most 100, describes exactly `c`.
pub proof fn lemma_written_values_read_back(c: AppConfig, input: Seq<char>, read: AppConfig)
    requires
        known_theme(c.ui.theme@),
        c.audio.default_volume <= 100,
        forall|i: int| 0 <= i < 8 ==> holds_assignment(input, #[trigger] config_assignments_spec(c)[i]),
        config_matches_document(read, input),
    ensures
        same_config(read, c),
{
    let s = config_assignments_spec(c);
    assert(holds_assignment(input, s[0]));
    assert(holds_assignment(input, s[1]));
    assert(holds_assignment(input, s[2]));
    assert(holds_assignment(input, s[3]));
    assert(holds_assignment(input, s[4]));
    assert(holds_assignment(input, s[5]));
    assert(holds_assignment(input, s[6]));
    assert(holds_assignment(input, s[7]));
    assert(str_field(opt_str_value(c.audio.output_device)) == opt_view(c.audio.output_device));
    assert(str_field(opt_str_value(c.keybindings.path)) == opt_view(c.keybindings.path));
    assert(volume_of(Some(ScalarView::Int(c.audio.default_volume as i64))) == c.audio.default_volume);
    assert(theme_of(Some(ScalarView::Str(c.ui.theme@))) == c.ui.theme@);
    assert(bool_field(Some(ScalarView::Bool(c.ui.notifications_enabled)), true) == c.ui.notifications_enabled);
}

} // verus!
