//! Reading `pulsedeck.toml`: the error report of a malformed file, and the
//! checks applied to the values read from it.

use vstd::prelude::*;
use vstd::string::StringSliceAdditionalSpecFns;
use crate::audio::engine::opt_view;
use crate::config_toml::{AppConfig, AudioConfig, KeybindingsConfig, PlaybackConfig, UiConfig};
use crate::text::{decimal, str_chars, string_from_chars, string_from_str, u64_decimal};

verus! {

/// A TOML syntax error, with the 1-based line and column where the parser
/// stopped, when it said where.
#[derive(Debug)]
pub struct ParseError {
    pub message: String,
    pub line: Option<usize>,
    pub col: Option<usize>,
}

/// How a parse error is shown: the message, then `(line L, col C)` when both
/// are known.
pub open spec fn parse_error_text(message: Seq<char>, line: Option<usize>, col: Option<usize>) -> Seq<char> {
    match (line, col) {
        (Some(l), Some(c)) => message + " (line "@ + decimal(l as nat) + ", col "@ + decimal(c as nat) + ")"@,
        _ => message,
    }
}

pub(crate) fn push_all(out: &mut Vec<char>, s: &[char])
    ensures
        final(out)@ == old(out)@ + s@,
{
    let ghost start = out@;
    let mut i: usize = 0;
    while i < s.len()
        invariant
            i <= s.len(),
            out@ == start + s@.take(i as int),
        decreases s.len() - i,
    {
        out.push(s[i]);
        assert(s@.take(i + 1) =~= s@.take(i as int).push(s@[i as int]));
        i += 1;
    }
    assert(s@.take(s.len() as int) =~= s@);
}

impl ParseError {
    /// The error as shown to the user.
    pub fn describe(&self) -> (r: String)
        ensures
            r@ == parse_error_text(self.message@, self.line, self.col),
    {
        match (self.line, self.col) {
            (Some(l), Some(c)) => {
                let mut out = str_chars(self.message.as_str());
                push_all(&mut out, str_chars(" (line ").as_slice());
                push_all(&mut out, u64_decimal(l as u64).as_slice());
                push_all(&mut out, str_chars(", col ").as_slice());
                push_all(&mut out, u64_decimal(c as u64).as_slice());
                push_all(&mut out, str_chars(")").as_slice());
                string_from_chars(out.as_slice())
            },
            _ => string_from_str(self.message.as_str()),
        }
    }
}

/// The decimal text of a signed number, with `-` when negative.
pub open spec fn signed_decimal(v: int) -> Seq<char> {
    if v < 0 {
        seq!['-'] + decimal((-v) as nat)
    } else {
        decimal(v as nat)
    }
}

fn i64_decimal(v: i64) -> (r: Vec<char>)
    ensures
        r@ == signed_decimal(v as int),
{
    if v < 0 {
        let magnitude: u64 = if v == i64::MIN {
            9223372036854775808u64
        } else {
            (-v) as u64
        };
        let mut out: Vec<char> = Vec::new();
        out.push('-');
        push_all(&mut out, u64_decimal(magnitude).as_slice());
        assert(out@ =~= seq!['-'] + decimal((-(v as int)) as nat));
        out
    } else {
        u64_decimal(v as u64)
    }
}

/// The warning for a volume out of range, naming the value and the limit it
/// was clamped to.
pub open spec fn volume_warning(raw: int, limit: nat) -> Seq<char> {
    "audio.default_volume: '"@ + signed_decimal(raw) + "' is invalid, clamped to "@ + decimal(limit)
}

pub open spec fn strings_view(v: Seq<String>) -> Seq<Seq<char>> {
    v.map_values(|s: String| s@)
}

pub(crate) fn push_warning(warnings: &mut Vec<String>, w: String)
    ensures
        strings_view(final(warnings)@) == strings_view(old(warnings)@).push(w@),
{
    warnings.push(w);
    assert(strings_view(warnings@) =~= strings_view(old(warnings)@).push(w@));
}

/// The configured volume limited to 0..=100; a value outside that range is
/// clamped to the nearer limit, with a warning.
pub fn clamp_volume(raw: i64, warnings: &mut Vec<String>) -> (v: u8)
    ensures
        v == if raw < 0 { 0 } else if raw > 100 { 100 } else { raw },
        strings_view(final(warnings)@) == if raw < 0 {
            strings_view(old(warnings)@).push(volume_warning(raw as int, 0))
        } else if raw > 100 {
            strings_view(old(warnings)@).push(volume_warning(raw as int, 100))
        } else {
            strings_view(old(warnings)@)
        },
{
    if raw < 0 || raw > 100 {
        let limit: u8 = if raw < 0 { 0 } else { 100 };
        let mut out = str_chars("audio.default_volume: '");
        push_all(&mut out, i64_decimal(raw).as_slice());
        push_all(&mut out, str_chars("' is invalid, clamped to ").as_slice());
        push_all(&mut out, u64_decimal(limit as u64).as_slice());
        push_warning(warnings, string_from_chars(out.as_slice()));
        limit
    } else {
        raw as u8
    }
}

/// The labels of the colour themes.
pub open spec fn known_theme(name: Seq<char>) -> bool {
    name == "Retrowave"@ || name == "Catppuccin Mocha"@ || name == "Catppuccin Macchiato"@
        || name == "Catppuccin Frappé"@ || name == "Catppuccin Latte"@ || name == "Terminal"@
}

/// The warning for an unknown theme.
pub open spec fn theme_warning(raw: Seq<char>) -> Seq<char> {
    "ui.theme: '"@ + raw + "' is invalid, using default 'Retrowave'"@
}

/// The configured theme when it is one of the known themes; otherwise
/// `Retrowave`, with a warning.
pub fn validate_theme(raw: &str, warnings: &mut Vec<String>) -> (t: String)
    ensures
        known_theme(raw@) ==> t@ == raw@ && strings_view(final(warnings)@) == strings_view(old(warnings)@),
        !known_theme(raw@) ==> t@ == "Retrowave"@ && strings_view(final(warnings)@) == strings_view(
            old(warnings)@,
        ).push(theme_warning(raw@)),
{
    let c = str_chars(raw);
    let s = c.as_slice();
    let known = crate::text::str_eq_chars("Retrowave", s) || crate::text::str_eq_chars("Catppuccin Mocha", s)
        || crate::text::str_eq_chars("Catppuccin Macchiato", s) || crate::text::str_eq_chars("Catppuccin Frappé", s)
        || crate::text::str_eq_chars("Catppuccin Latte", s) || crate::text::str_eq_chars("Terminal", s);
    if known {
        string_from_str(raw)
    } else {
        let mut out = str_chars("ui.theme: '");
        push_all(&mut out, s);
        push_all(&mut out, str_chars("' is invalid, using default 'Retrowave'").as_slice());
        push_warning(warnings, string_from_chars(out.as_slice()));
        string_from_str("Retrowave")
    }
}

/// How many times byte `b` occurs in `s`.
pub open spec fn count_byte(s: Seq<u8>, b: u8) -> nat
    decreases s.len(),
{
    if s.len() == 0 {
        0
    } else {
        count_byte(s.drop_last(), b) + if s.last() == b { 1nat } else { 0nat }
    }
}

/// The index just after the last line feed of `s`, 0 without one.
pub open spec fn line_start(s: Seq<u8>) -> nat
    decreases s.len(),
{
    if s.len() == 0 {
        0
    } else if s.last() == 10 {
        s.len()
    } else {
        line_start(s.drop_last())
    }
}

/// The number of lines of the text before the offset (`str::lines`).
pub open spec fn lines_before(before: Seq<u8>) -> nat {
    count_byte(before, 10) + if before.len() > 0 && before.last() != 10 { 1nat } else { 0nat }
}

/// The 1-based line and column of a byte offset of `input`: the line is the
/// number of lines of the text before it, the column counts bytes from the
/// start of its line.
pub fn line_col_from_offset(input: &str, offset: usize) -> (r: (Option<usize>, Option<usize>))
    requires
        vstd::utf8::is_char_boundary(
            input.spec_bytes(),
            if offset < input.spec_bytes().len() { offset as int } else { input.spec_bytes().len() as int },
        ),
        offset < usize::MAX,
    ensures
        ({
            let bytes = input.spec_bytes();
            let before = bytes.take(if offset < bytes.len() { offset as int } else { bytes.len() as int });
            r == (Some(lines_before(before) as usize), Some((offset - line_start(before) + 1) as usize))
        }),
{
    let bytes = input.as_bytes();
    let end = if offset < bytes.len() { offset } else { bytes.len() };
    let ghost before = bytes@.take(end as int);
    let mut count: usize = 0;
    let mut start: usize = 0;
    let mut i: usize = 0;
    while i < end
        invariant
            i <= end <= bytes@.len(),
            before == bytes@.take(end as int),
            count == count_byte(bytes@.take(i as int), 10),
            start == line_start(bytes@.take(i as int)),
            count <= i,
            start <= i,
        decreases end - i,
    {
        assert(bytes@.take(i + 1).drop_last() =~= bytes@.take(i as int));
        if bytes[i] == 10 {
            count += 1;
            start = i + 1;
        }
        i += 1;
    }
    let line = if end > 0 && bytes[end - 1] != 10 { count + 1 } else { count };
    proof {
        if end > 0 {
            assert(before.last() == bytes@[end - 1]);
        }
    }
    (Some(line), Some(offset - start + 1))
}


// ---------------------------------------------------------------------------
// The document
// ---------------------------------------------------------------------------

#[verifier::external_type_specification]
#[verifier::external_body]
pub struct ExTomlValue(toml::Value);

/// A value read from the document, as far as the configuration reads it:
/// strings, integers and booleans; anything else (floats, dates, arrays,
/// tables) is `Other`.
#[derive(Debug, Clone, PartialEq, Eq)]
pub enum TomlScalar {
    Str(String),
    Int(i64),
    Bool(bool),
    Other,
}

pub enum ScalarView {
    Str(Seq<char>),
    Int(i64),
    Bool(bool),
    Other,
}

impl View for TomlScalar {
    type V = ScalarView;

    open spec fn view(&self) -> ScalarView {
        match self {
            TomlScalar::Str(s) => ScalarView::Str(s@),
            TomlScalar::Int(i) => ScalarView::Int(*i),
            TomlScalar::Bool(b) => ScalarView::Bool(*b),
            TomlScalar::Other => ScalarView::Other,
        }
    }
}

pub open spec fn scalar_opt_view(o: Option<TomlScalar>) -> Option<ScalarView> {
    match o {
        Some(v) => Some(v@),
        None => None,
    }
}

/// Why a TOML document did not parse: the parser's message and the byte
/// offset where the offending span starts, when it gave one.
#[derive(Debug)]
pub struct TomlFailure {
    pub message: String,
    pub offset: Option<usize>,
}

/// The failure of parsing `input` as a TOML document, `None` when it parses.
pub uninterp spec fn toml_failure(input: Seq<char>) -> Option<(Seq<char>, Option<usize>)>;

/// The value of `key` in the table `section` of the TOML document `input`;
/// `None` when the document does not parse, `section` is not a table, or the
/// table has no such key.
pub uninterp spec fn toml_field_value(input: Seq<char>, section: Seq<char>, key: Seq<char>) -> Option<ScalarView>;

/// Parses `input` as a TOML document (`toml::Value` through `str::parse`).
/// On failure it gives the error's `message()` and the start of its `span()`.
#[verifier::external_body]
fn toml_parse(input: &str) -> (r: Result<toml::Value, TomlFailure>)
    ensures
        match r {
            Ok(_) => toml_failure(input@) is None,
            Err(f) => toml_failure(input@) == Some((f.message@, f.offset)),
        },
{
    match input.parse::<toml::Value>() {
        Ok(value) => Ok(value),
        Err(e) => Err(TomlFailure { message: e.message().to_string(), offset: e.span().map(|s| s.start) }),
    }
}

/// Looks up `key` in the table `section` of the document `input`: the
/// document is parsed (`str::parse` to `toml::Value`) and `toml::Value::get`
/// is applied twice; the value found is returned by its kind. Each lookup
/// parses the document again, which keeps the result a function of the text.
#[verifier::external_body]
fn toml_field(input: &str, section: &str, key: &str) -> (r: Option<TomlScalar>)
    ensures
        scalar_opt_view(r) == toml_field_value(input@, section@, key@),
{
    let document = input.parse::<toml::Value>().ok()?;
    Some(match document.get(section)?.get(key)? {
        toml::Value::String(s) => TomlScalar::Str(s.clone()),
        toml::Value::Integer(i) => TomlScalar::Int(*i),
        toml::Value::Boolean(b) => TomlScalar::Bool(*b),
        _ => TomlScalar::Other,
    })
}

pub open spec fn str_field(v: Option<ScalarView>) -> Option<Seq<char>> {
    match v {
        Some(ScalarView::Str(s)) => Some(s),
        _ => None,
    }
}

pub open spec fn bool_field(v: Option<ScalarView>, default: bool) -> bool {
    match v {
        Some(ScalarView::Bool(b)) => b,
        _ => default,
    }
}

/// The configured volume: an integer clamped to 0..=100, else 80.
pub open spec fn volume_of(v: Option<ScalarView>) -> u8 {
    match v {
        Some(ScalarView::Int(i)) => if i < 0 { 0 } else if i > 100 { 100 } else { i as u8 },
        _ => 80,
    }
}

pub open spec fn volume_warnings(v: Option<ScalarView>) -> Seq<Seq<char>> {
    match v {
        Some(ScalarView::Int(i)) => if i < 0 {
            seq![volume_warning(i as int, 0)]
        } else if i > 100 {
            seq![volume_warning(i as int, 100)]
        } else {
            Seq::empty()
        },
        _ => Seq::empty(),
    }
}

/// The theme asked for: the string given, else `Retrowave`.
pub open spec fn theme_asked(v: Option<ScalarView>) -> Seq<char> {
    match str_field(v) {
        Some(s) => s,
        None => "Retrowave"@,
    }
}

pub open spec fn theme_of(v: Option<ScalarView>) -> Seq<char> {
    if known_theme(theme_asked(v)) { theme_asked(v) } else { "Retrowave"@ }
}

pub open spec fn theme_warnings(v: Option<ScalarView>) -> Seq<Seq<char>> {
    if known_theme(theme_asked(v)) { Seq::empty() } else { seq![theme_warning(theme_asked(v))] }
}

/// The audio settings of the values read.
pub fn parse_audio_section(output_device: Option<TomlScalar>, default_volume: Option<TomlScalar>, warnings: &mut Vec<String>) -> (c: AudioConfig)
    ensures
        opt_view(c.output_device) == str_field(scalar_opt_view(output_device)),
        c.default_volume == volume_of(scalar_opt_view(default_volume)),
        strings_view(final(warnings)@) == strings_view(old(warnings)@) + volume_warnings(scalar_opt_view(default_volume)),
{
    let device = match output_device {
        Some(TomlScalar::Str(s)) => Some(s),
        _ => None,
    };
    let volume = match default_volume {
        Some(TomlScalar::Int(i)) => clamp_volume(i, warnings),
        _ => 80,
    };
    proof {
        let w = strings_view(old(warnings)@);
        assert(w + Seq::<Seq<char>>::empty() =~= w);
        assert(w.push(volume_warning(0, 0)) =~= w + seq![volume_warning(0, 0)]);
        match default_volume {
            Some(TomlScalar::Int(i)) => {
                assert(w.push(volume_warning(i as int, 0)) =~= w + seq![volume_warning(i as int, 0)]);
                assert(w.push(volume_warning(i as int, 100)) =~= w + seq![volume_warning(i as int, 100)]);
            },
            _ => {},
        }
    }
    AudioConfig { output_device: device, default_volume: volume }
}

/// The interface settings of the values read.
pub fn parse_ui_section(
    theme: Option<TomlScalar>,
    notifications_enabled: Option<TomlScalar>,
    stream_metadata_enabled: Option<TomlScalar>,
    warnings: &mut Vec<String>,
) -> (c: UiConfig)
    ensures
        c.theme@ == theme_of(scalar_opt_view(theme)),
        c.notifications_enabled == bool_field(scalar_opt_view(notifications_enabled), true),
        c.stream_metadata_enabled == bool_field(scalar_opt_view(stream_metadata_enabled), true),
        strings_view(final(warnings)@) == strings_view(old(warnings)@) + theme_warnings(scalar_opt_view(theme)),
{
    let t = match theme {
        Some(TomlScalar::Str(s)) => validate_theme(s.as_str(), warnings),
        _ => validate_theme("Retrowave", warnings),
    };
    proof {
        reveal_strlit("Retrowave");
        let w = strings_view(old(warnings)@);
        assert(w + Seq::<Seq<char>>::empty() =~= w);
        assert(w.push(theme_warning(theme_asked(scalar_opt_view(theme)))) =~= w + seq![theme_warning(theme_asked(scalar_opt_view(theme)))]);
    }
    let notifications = match notifications_enabled {
        Some(TomlScalar::Bool(b)) => b,
        _ => true,
    };
    let stream_metadata = match stream_metadata_enabled {
        Some(TomlScalar::Bool(b)) => b,
        _ => true,
    };
    UiConfig { theme: t, notifications_enabled: notifications, stream_metadata_enabled: stream_metadata }
}

/// The playback settings of the values read.
pub fn parse_playback_section(autoplay_last: Option<TomlScalar>, save_history: Option<TomlScalar>) -> (c: PlaybackConfig)
    ensures
        c.autoplay_last == bool_field(scalar_opt_view(autoplay_last), false),
        c.save_history == bool_field(scalar_opt_view(save_history), false),
{
    let autoplay = match autoplay_last {
        Some(TomlScalar::Bool(b)) => b,
        _ => false,
    };
    let history = match save_history {
        Some(TomlScalar::Bool(b)) => b,
        _ => false,
    };
    PlaybackConfig { autoplay_last: autoplay, save_history: history }
}

/// The keybindings settings of the values read.
pub fn parse_keybindings_section(path: Option<TomlScalar>) -> (c: KeybindingsConfig)
    ensures
        opt_view(c.path) == str_field(scalar_opt_view(path)),
{
    let p = match path {
        Some(TomlScalar::Str(s)) => Some(s),
        _ => None,
    };
    KeybindingsConfig { path: p }
}

/// The configuration that the document `input` describes.
pub open spec fn config_matches_document(c: AppConfig, input: Seq<char>) -> bool {
    let field = |section: Seq<char>, key: Seq<char>| toml_field_value(input, section, key);
    &&& opt_view(c.audio.output_device) == str_field(field("audio"@, "output_device"@))
    &&& c.audio.default_volume == volume_of(field("audio"@, "default_volume"@))
    &&& c.ui.theme@ == theme_of(field("ui"@, "theme"@))
    &&& c.ui.notifications_enabled == bool_field(field("ui"@, "notifications_enabled"@), true)
    &&& c.ui.stream_metadata_enabled == bool_field(field("ui"@, "stream_metadata_enabled"@), true)
    &&& c.playback.autoplay_last == bool_field(field("playback"@, "autoplay_last"@), false)
    &&& c.playback.save_history == bool_field(field("playback"@, "save_history"@), false)
    &&& opt_view(c.keybindings.path) == str_field(field("keybindings"@, "path"@))
}

/// The warnings of reading the document `input`: the volume's, then the
/// theme's.
pub open spec fn document_warnings(input: Seq<char>) -> Seq<Seq<char>> {
    volume_warnings(toml_field_value(input, "audio"@, "default_volume"@))
        + theme_warnings(toml_field_value(input, "ui"@, "theme"@))
}

/// Where a parse failure is reported: the line and column of its offset,
/// when there is one that falls on a character boundary.
pub open spec fn failure_location(bytes: Seq<u8>, offset: Option<usize>) -> (Option<usize>, Option<usize>) {
    match offset {
        Some(o) => {
            let end = if o < bytes.len() { o as int } else { bytes.len() as int };
            if o < usize::MAX && vstd::utf8::is_char_boundary(bytes, end) {
                let before = bytes.take(end);
                (Some(lines_before(before) as usize), Some((o - line_start(before) + 1) as usize))
            } else {
                (None, None)
            }
        },
        None => (None, None),
    }
}

/// A parsed configuration, the whole document (unknown keys included, to be
/// written back), and the warnings about values that were replaced.
#[derive(Debug)]
pub struct ParseResult {
    pub config: AppConfig,
    pub preserved: toml::Value,
    pub warnings: Vec<String>,
}

/// Parses `pulsedeck.toml`. Missing sections and keys, and values of the
/// wrong kind, take their defaults; an out-of-range volume is clamped and an
/// unknown theme replaced, each with a warning. A document that is not TOML
/// is an error with the parser's message and, where it said, the line and
/// column.
pub fn parse_toml(input: &str) -> (r: Result<ParseResult, ParseError>)
    ensures
        match r {
            Ok(p) => {
                &&& toml_failure(input@) is None
                &&& config_matches_document(p.config, input@)
                &&& strings_view(p.warnings@) == document_warnings(input@)
            },
            Err(e) => match toml_failure(input@) {
                Some((m, offset)) => e.message@ == m && (e.line, e.col) == failure_location(input.spec_bytes(), offset),
                None => false,
            },
        },
{
    let value = match toml_parse(input) {
        Ok(v) => v,
        Err(f) => {
            let (line, col) = match f.offset {
                Some(o) => {
                    let end = if o < input.as_bytes().len() { o } else { input.as_bytes().len() };
                    if o < usize::MAX && input.is_char_boundary(end) {
                        line_col_from_offset(input, o)
                    } else {
                        (None, None)
                    }
                },
                None => (None, None),
            };
            return Err(ParseError { message: f.message, line, col });
        },
    };
    let mut warnings: Vec<String> = Vec::new();
    let audio = parse_audio_section(
        toml_field(input, "audio", "output_device"),
        toml_field(input, "audio", "default_volume"),
        &mut warnings,
    );
    let ui = parse_ui_section(
        toml_field(input, "ui", "theme"),
        toml_field(input, "ui", "notifications_enabled"),
        toml_field(input, "ui", "stream_metadata_enabled"),
        &mut warnings,
    );
    let playback = parse_playback_section(
        toml_field(input, "playback", "autoplay_last"),
        toml_field(input, "playback", "save_history"),
    );
    let keybindings = parse_keybindings_section(toml_field(input, "keybindings", "path"));
    proof {
        assert(strings_view(warnings@) =~= document_warnings(input@));
    }
    Ok(ParseResult { config: AppConfig { audio, ui, playback, keybindings }, preserved: value, warnings })
}

/// The configured volume always lies in 0..=100: a value in range is kept,
/// one below is read as 0 and one above as 100.
pub proof fn lemma_volume_always_in_range(v: Option<ScalarView>)
    ensures
        volume_of(v) <= 100,
        v matches Some(ScalarView::Int(i)) ==> (
            (0 <= i <= 100 ==> volume_of(v) == i)
            && (i < 0 ==> volume_of(v) == 0)
            && (i > 100 ==> volume_of(v) == 100)),
{
}

/// The configured theme is always one of the known themes, and a known theme
/// asked for is the one used, without a warning.
pub proof fn lemma_theme_always_known(v: Option<ScalarView>)
    ensures
        known_theme(theme_of(v)),
        known_theme(theme_asked(v)) ==> theme_of(v) == theme_asked(v) && theme_warnings(v).len() == 0,
{
}

} // verus!
