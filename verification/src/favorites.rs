//! The personal station library: the saved stations, their genre tabs, the
//! settings stored with them, and the import and metadata-refresh logic.
//! Reading and writing `library.json` is left to the application.

use std::path::PathBuf;
use vstd::prelude::*;
use crate::favorites_set::FavoritesSet;
use crate::radio::{
    enriched, identity_matches, station_identity_matches, station_url_matches, stations_view,
    url_matches, Station, StationView,
};
use crate::text::{
    contains, contains_chars, decimal, lowercase, str_chars, str_trim, string_from_chars,
    string_from_str, to_lowercase, trim, truncate_with_ellipsis, truncated_with_ellipsis,
    u64_decimal,
};

verus! {

#[verifier::external_type_specification]
#[verifier::external_body]
pub struct ExPathBuf(PathBuf);

/// Application settings stored with the library.
#[derive(Clone, Debug)]
pub struct Settings {
    pub notifications_enabled: bool,
    pub autoplay_last: bool,
    pub last_played_url: Option<String>,
    pub theme: String,
    pub output_device_name: Option<String>,
    pub save_history: bool,
    pub stream_metadata_enabled: bool,
    pub favorites: FavoritesSet,
}

/// The settings are the defaults: notifications and stream metadata on,
/// autoplay and history off, the Retrowave theme, no last station, no output
/// device and no favourites.
pub open spec fn default_settings(s: Settings) -> bool {
    &&& s.notifications_enabled
    &&& !s.autoplay_last
    &&& s.last_played_url is None
    &&& s.theme@ == "Retrowave"@
    &&& s.output_device_name is None
    &&& !s.save_history
    &&& s.stream_metadata_enabled
    &&& s.favorites@ == Set::<Seq<char>>::empty()
}

impl Default for Settings {
    fn default() -> (s: Self)
        ensures
            default_settings(s),
    {
        Settings {
            notifications_enabled: true,
            autoplay_last: false,
            last_played_url: None,
            theme: string_from_str("Retrowave"),
            output_device_name: None,
            save_history: false,
            stream_metadata_enabled: true,
            favorites: FavoritesSet::new(),
        }
    }
}

pub fn default_true() -> (b: bool)
    ensures
        b,
{
    true
}

pub fn default_theme() -> (s: String)
    ensures
        s@ == "Retrowave"@,
{
    string_from_str("Retrowave")
}

pub fn default_library_version() -> (v: u32)
    ensures
        v == 1,
{
    1
}

pub struct Library {
    pub stations: Vec<Station>,
    pub available_genres: Vec<String>,
    pub settings: Settings,
    pub path: Option<PathBuf>,
    pub load_warnings: Vec<String>,
}

// ---------------------------------------------------------------------------
// Genres
// ---------------------------------------------------------------------------

/// The parent category of a micro-genre, by case-insensitive keywords.
pub open spec fn parent_genre(subgenre: Seq<char>) -> Seq<char> {
    let s = lowercase(subgenre);
    if contains(s, "synthwave"@) || contains(s, "chillsynth"@) || contains(s, "darksynth"@)
        || contains(s, "retrowave"@) {
        "Synthwave"@
    } else if contains(s, "ambient"@) || contains(s, "chillout"@) || contains(s, "drone"@)
        || contains(s, "space"@) {
        "Ambient"@
    } else if contains(s, "rock"@) || contains(s, "metal"@) || contains(s, "guitar"@) {
        "Rock"@
    } else if contains(s, "vaporwave"@) || contains(s, "plaza"@) || contains(s, "synthpop"@) {
        "Vaporwave"@
    } else {
        "Other"@
    }
}

fn contains_str(hay: &[char], needle: &str) -> (b: bool)
    ensures
        b == contains(hay@, needle@),
{
    let n = str_chars(needle);
    contains_chars(hay, n.as_slice())
}

/// Maps a micro-genre to its static parent category.
pub fn resolve_parent_genre(subgenre: &str) -> (r: &'static str)
    ensures
        r@ == parent_genre(subgenre@),
{
    let lower = to_lowercase(subgenre);
    let s = str_chars(lower.as_str());
    let s = s.as_slice();
    if contains_str(s, "synthwave") || contains_str(s, "chillsynth") || contains_str(
        s,
        "darksynth",
    ) || contains_str(s, "retrowave") {
        "Synthwave"
    } else if contains_str(s, "ambient") || contains_str(s, "chillout") || contains_str(s, "drone")
        || contains_str(s, "space") {
        "Ambient"
    } else if contains_str(s, "rock") || contains_str(s, "metal") || contains_str(s, "guitar") {
        "Rock"
    } else if contains_str(s, "vaporwave") || contains_str(s, "plaza") || contains_str(
        s,
        "synthpop",
    ) {
        "Vaporwave"
    } else {
        "Other"
    }
}

/// Some station's genre falls under parent category `g`.
pub open spec fn genre_present(stations: Seq<StationView>, g: Seq<char>) -> bool {
    exists|i: int| 0 <= i < stations.len() && parent_genre(#[trigger] stations[i].genre) == g
}

pub open spec fn tab_if(stations: Seq<StationView>, g: Seq<char>) -> Seq<Seq<char>> {
    if genre_present(stations, g) {
        seq![g]
    } else {
        Seq::empty()
    }
}

/// The genre tabs: `All`, then each parent category that some station falls
/// under, once, in the order of the lowercase category names (Ambient,
/// Other, Rock, Synthwave, Vaporwave).
pub open spec fn genre_tabs(stations: Seq<StationView>) -> Seq<Seq<char>> {
    seq!["All"@] + tab_if(stations, "Ambient"@) + tab_if(stations, "Other"@) + tab_if(
        stations,
        "Rock"@,
    ) + tab_if(stations, "Synthwave"@) + tab_if(stations, "Vaporwave"@)
}

pub open spec fn strings_of(v: Seq<String>) -> Seq<Seq<char>> {
    v.map_values(|s: String| s@)
}

// ---------------------------------------------------------------------------
// Import
// ---------------------------------------------------------------------------

#[derive(Debug, Clone, Copy, PartialEq, Eq, Structural)]
pub struct ImportSummary {
    pub added: usize,
    pub skipped: usize,
    pub enriched: usize,
}

#[derive(Debug, Clone, Copy, PartialEq, Eq, Structural)]
pub struct MetadataRefreshSummary {
    pub checked: usize,
    pub enriched: usize,
    pub unchanged: usize,
    pub failed: usize,
}

#[derive(Debug, Clone, PartialEq, Eq)]
pub struct ImportSkip {
    pub name: String,
    pub reason: String,
}

#[derive(Debug, Clone, PartialEq, Eq)]
pub struct ImportPreview {
    pub new_stations: Vec<Station>,
    pub duplicates: Vec<Station>,
    pub enrichments: Vec<Station>,
    pub skipped: Vec<ImportSkip>,
}

#[derive(Debug, Clone, Copy, PartialEq, Eq, Structural)]
pub enum ImportMode {
    All,
    EnrichExistingOnly,
}

/// What to do when no library file exists yet.
#[derive(Debug, Clone)]
pub enum MissingLibraryPolicy {
    SeedAndSave(Vec<Station>),
    Empty,
}

pub open spec fn notice_text(s: MetadataRefreshSummary) -> Seq<char> {
    "Metadata refresh: "@ + decimal(s.checked as nat) + " checked, "@ + decimal(s.enriched as nat)
        + " enriched, "@ + decimal(s.unchanged as nat) + " unchanged, "@ + decimal(
        s.failed as nat,
    ) + " failed"@
}

impl MetadataRefreshSummary {
    pub fn notice(self) -> (r: String)
        ensures
            r@ == notice_text(self),
    {
        let mut out = str_chars("Metadata refresh: ");
        out.append(&mut u64_decimal(self.checked as u64));
        out.append(&mut str_chars(" checked, "));
        out.append(&mut u64_decimal(self.enriched as u64));
        out.append(&mut str_chars(" enriched, "));
        out.append(&mut u64_decimal(self.unchanged as u64));
        out.append(&mut str_chars(" unchanged, "));
        out.append(&mut u64_decimal(self.failed as u64));
        out.append(&mut str_chars(" failed"));
        assert(out@ =~= notice_text(self));
        string_from_chars(out.as_slice())
    }
}

impl ImportPreview {
    pub fn is_empty(&self) -> (b: bool)
        ensures
            b == (self.new_stations@.len() == 0 && self.duplicates@.len() == 0
                && self.enrichments@.len() == 0 && self.skipped@.len() == 0),
    {
        self.new_stations.len() == 0 && self.duplicates.len() == 0 && self.enrichments.len() == 0
            && self.skipped.len() == 0
    }
}

/// Why an incoming station cannot be imported, if it cannot.
pub open spec fn skip_reason(st: StationView) -> Option<Seq<char>> {
    if trim(st.url).len() == 0 {
        Some("missing stream URL"@)
    } else if trim(st.name).len() == 0 {
        Some("missing station name"@)
    } else {
        None
    }
}

/// The name under which a skipped station is reported.
pub open spec fn skip_name(st: StationView) -> Seq<char> {
    if trim(st.name).len() == 0 {
        "Unnamed station"@
    } else {
        trim(st.name)
    }
}

pub fn import_skip_reason(station: &Station) -> (r: Option<String>)
    ensures
        match skip_reason(station@) {
            Some(m) => r matches Some(s) && s@ == m,
            None => r is None,
        },
{
    if str_trim(station.url.as_str()).len() == 0 {
        Some(string_from_str("missing stream URL"))
    } else if str_trim(station.name.as_str()).len() == 0 {
        Some(string_from_str("missing station name"))
    } else {
        None
    }
}

pub fn import_skip_name(station: &Station) -> (r: String)
    ensures
        r@ == skip_name(station@),
{
    let name = str_trim(station.name.as_str());
    if name.len() == 0 {
        string_from_str("Unnamed station")
    } else {
        string_from_chars(name.as_slice())
    }
}

/// `i` is the first station of `s` that is the same station as `st`.
pub open spec fn first_identity_at(s: Seq<StationView>, st: StationView, i: int) -> bool {
    0 <= i < s.len() && identity_matches(s[i], st) && forall|j: int|
        0 <= j < i ==> !identity_matches(#[trigger] s[j], st)
}

/// The first station of `s` that is the same station as `st`, if any.
pub open spec fn first_identity(s: Seq<StationView>, st: StationView) -> Option<int> {
    if exists|i: int| 0 <= i < s.len() && identity_matches(#[trigger] s[i], st) {
        Some(choose|i: int| first_identity_at(s, st, i))
    } else {
        None
    }
}

pub proof fn lemma_first_identity(s: Seq<StationView>, st: StationView, i: int)
    requires
        first_identity_at(s, st, i),
    ensures
        first_identity(s, st) == Some(i),
{
    assert(identity_matches(s[i], st));
    let c = choose|k: int| first_identity_at(s, st, k);
    assert(first_identity_at(s, st, c));
    if c < i {
        assert(!identity_matches(s[c], st));
    }
    if c > i {
        assert(!identity_matches(s[i], st));
    }
}

/// When some station matches, the chosen first match really is the first.
pub proof fn lemma_first_identity_exists(s: Seq<StationView>, st: StationView)
    ensures
        first_identity(s, st) matches Some(i) ==> first_identity_at(s, st, i),
        first_identity(s, st) is None ==> forall|j: int|
            0 <= j < s.len() ==> !identity_matches(#[trigger] s[j], st),
    decreases s.len(),
{
    if exists|i: int| 0 <= i < s.len() && identity_matches(#[trigger] s[i], st) {
        let p = s.drop_last();
        lemma_first_identity_exists(p, st);
        match first_identity(p, st) {
            Some(m) => {
                assert forall|j: int| 0 <= j < m implies !identity_matches(#[trigger] s[j], st) by {
                    assert(s[j] == p[j]);
                }
                assert(s[m] == p[m]);
                assert(first_identity_at(s, st, m));
            },
            None => {
                let w = choose|i: int| 0 <= i < s.len() && identity_matches(#[trigger] s[i], st);
                if w < s.len() - 1 {
                    assert(p[w] == s[w]);
                }
                assert forall|j: int| 0 <= j < s.len() - 1 implies !identity_matches(#[trigger] s[j], st) by {
                    assert(s[j] == p[j]);
                }
                assert(first_identity_at(s, st, s.len() - 1));
            },
        }
    }
}

/// The first index of a station that is the same station as `station`.
fn find_identity(stations: &Vec<Station>, station: &Station) -> (r: Option<usize>)
    ensures
        match r {
            Some(i) => first_identity_at(stations_view(stations@), station@, i as int),
            None => first_identity(stations_view(stations@), station@) is None,
        },
        r matches Some(i) ==> first_identity(stations_view(stations@), station@) == Some(i as int),
{
    let ghost sv = stations_view(stations@);
    let mut i: usize = 0;
    while i < stations.len()
        invariant
            i <= stations.len(),
            sv == stations_view(stations@),
            forall|j: int| 0 <= j < i ==> !identity_matches(#[trigger] sv[j], station@),
        decreases stations.len() - i,
    {
        if station_identity_matches(&stations[i], station) {
            proof {
                lemma_first_identity(sv, station@, i as int);
            }
            return Some(i);
        }
        i += 1;
    }
    None
}

/// The state of an import preview after some incoming stations: the library
/// as it would be, and the four classifications.
pub struct PreviewState {
    pub library: Seq<StationView>,
    pub new_stations: Seq<StationView>,
    pub duplicates: Seq<StationView>,
    pub enrichments: Seq<StationView>,
    pub skipped: Seq<(Seq<char>, Seq<char>)>,
}

/// One incoming station classified against the library as it would be:
/// skipped when unusable; else, when it is a saved station, an enrichment if
/// it brings new metadata and a duplicate if not; else new.
pub open spec fn preview_step(state: PreviewState, st: StationView) -> PreviewState {
    match skip_reason(st) {
        Some(reason) => PreviewState {
            skipped: state.skipped.push((skip_name(st), reason)),
            ..state
        },
        None => match first_identity(state.library, st) {
            Some(i) => if enriched(state.library[i], st) != state.library[i] {
                PreviewState {
                    library: state.library.update(i, enriched(state.library[i], st)),
                    enrichments: state.enrichments.push(st),
                    ..state
                }
            } else {
                PreviewState { duplicates: state.duplicates.push(st), ..state }
            },
            None => PreviewState {
                library: state.library.push(st),
                new_stations: state.new_stations.push(st),
                ..state
            },
        },
    }
}

/// The preview of importing `incoming`, one station after the other.
pub open spec fn preview_of(library: Seq<StationView>, incoming: Seq<StationView>) -> PreviewState
    decreases incoming.len(),
{
    if incoming.len() == 0 {
        PreviewState {
            library,
            new_stations: Seq::empty(),
            duplicates: Seq::empty(),
            enrichments: Seq::empty(),
            skipped: Seq::empty(),
        }
    } else {
        preview_step(preview_of(library, incoming.drop_last()), incoming.last())
    }
}

pub open spec fn skips_view(s: Seq<ImportSkip>) -> Seq<(Seq<char>, Seq<char>)> {
    s.map_values(|k: ImportSkip| (k.name@, k.reason@))
}

/// The preview's lists match the spec state.
pub open spec fn preview_matches(p: ImportPreview, s: PreviewState) -> bool {
    &&& stations_view(p.new_stations@) == s.new_stations
    &&& stations_view(p.duplicates@) == s.duplicates
    &&& stations_view(p.enrichments@) == s.enrichments
    &&& skips_view(p.skipped@) == s.skipped
}

/// The outcome of importing `incoming` into `library` in `All` mode: the
/// preview of the incoming stations, applied to the library.
pub open spec fn import_result(library: Seq<StationView>, incoming: Seq<StationView>) -> ApplyState {
    let p = preview_of(library, incoming);
    let start = ApplyState {
        stations: library,
        added: 0,
        skipped: (p.duplicates.len() + p.skipped.len()) as int,
        enriched: 0,
    };
    apply_new(apply_enrichments(start, p.enrichments, ImportMode::All), p.new_stations)
}

/// The state of applying a preview: the stations and the three counters.
pub struct ApplyState {
    pub stations: Seq<StationView>,
    pub added: int,
    pub skipped: int,
    pub enriched: int,
}

/// An enrichment is merged into the saved station it matches; where none
/// matches it is added in `All` mode; otherwise it counts as skipped.
pub open spec fn apply_enrichment_step(s: ApplyState, st: StationView, mode: ImportMode) -> ApplyState {
    match first_identity(s.stations, st) {
        Some(i) => if enriched(s.stations[i], st) != s.stations[i] {
            ApplyState {
                stations: s.stations.update(i, enriched(s.stations[i], st)),
                enriched: s.enriched + 1,
                ..s
            }
        } else {
            ApplyState { skipped: s.skipped + 1, ..s }
        },
        None => if mode == ImportMode::All {
            ApplyState { stations: s.stations.push(st), added: s.added + 1, ..s }
        } else {
            ApplyState { skipped: s.skipped + 1, ..s }
        },
    }
}

pub open spec fn apply_enrichments(s: ApplyState, list: Seq<StationView>, mode: ImportMode) -> ApplyState
    decreases list.len(),
{
    if list.len() == 0 {
        s
    } else {
        apply_enrichment_step(apply_enrichments(s, list.drop_last(), mode), list.last(), mode)
    }
}

/// A new station is added unless the library already has it.
pub open spec fn apply_new_step(s: ApplyState, st: StationView) -> ApplyState {
    if first_identity(s.stations, st) is Some {
        ApplyState { skipped: s.skipped + 1, ..s }
    } else {
        ApplyState { stations: s.stations.push(st), added: s.added + 1, ..s }
    }
}

pub open spec fn apply_new(s: ApplyState, list: Seq<StationView>) -> ApplyState
    decreases list.len(),
{
    if list.len() == 0 {
        s
    } else {
        apply_new_step(apply_new(s, list.drop_last()), list.last())
    }
}

/// The result of applying a preview in `mode` to `stations`.
pub open spec fn apply_preview(stations: Seq<StationView>, p: ImportPreview, mode: ImportMode) -> ApplyState {
    let start = ApplyState {
        stations,
        added: 0,
        skipped: (p.duplicates@.len() + p.skipped@.len()) as int,
        enriched: 0,
    };
    let after = apply_enrichments(start, stations_view(p.enrichments@), mode);
    if mode == ImportMode::All {
        apply_new(after, stations_view(p.new_stations@))
    } else {
        ApplyState { skipped: after.skipped + p.new_stations@.len(), ..after }
    }
}

/// The state of applying metadata-refresh results.
pub struct RefreshState {
    pub stations: Seq<StationView>,
    pub enriched: int,
    pub unchanged: int,
}

pub open spec fn refresh_step(s: RefreshState, st: StationView) -> RefreshState {
    match first_identity(s.stations, st) {
        Some(i) => if enriched(s.stations[i], st) != s.stations[i] {
            RefreshState {
                stations: s.stations.update(i, enriched(s.stations[i], st)),
                enriched: s.enriched + 1,
                ..s
            }
        } else {
            RefreshState { unchanged: s.unchanged + 1, ..s }
        },
        None => RefreshState { unchanged: s.unchanged + 1, ..s },
    }
}

pub open spec fn refresh_of(stations: Seq<StationView>, matches: Seq<StationView>) -> RefreshState
    decreases matches.len(),
{
    if matches.len() == 0 {
        RefreshState { stations, enriched: 0, unchanged: 0 }
    } else {
        refresh_step(refresh_of(stations, matches.drop_last()), matches.last())
    }
}

/// The first station whose URL matches `url`.
pub open spec fn first_url_at(s: Seq<StationView>, url: Seq<char>, i: int) -> bool {
    0 <= i < s.len() && url_matches(s[i].url, url) && forall|j: int|
        0 <= j < i ==> !url_matches(#[trigger] s[j].url, url)
}

/// Some station's URL matches `url`.
pub open spec fn has_url(s: Seq<StationView>, url: Seq<char>) -> bool {
    exists|i: int| 0 <= i < s.len() && url_matches(#[trigger] s[i].url, url)
}

/// The stations whose URL does not match `url`, in order.
pub open spec fn without_url(s: Seq<StationView>, url: Seq<char>) -> Seq<StationView>
    decreases s.len(),
{
    if s.len() == 0 {
        s
    } else if url_matches(s.last().url, url) {
        without_url(s.drop_last(), url)
    } else {
        without_url(s.drop_last(), url).push(s.last())
    }
}

pub proof fn lemma_without_url(s: Seq<StationView>, url: Seq<char>)
    ensures
        !has_url(without_url(s, url), url),
        without_url(s, url).len() <= s.len(),
        without_url(s, url).len() < s.len() <==> has_url(s, url),
    decreases s.len(),
{
    if s.len() > 0 {
        let p = s.drop_last();
        lemma_without_url(p, url);
        let w = without_url(p, url);
        if has_url(p, url) {
            let k = choose|k: int| 0 <= k < p.len() && url_matches(#[trigger] p[k].url, url);
            assert(s[k] == p[k]);
        }
        if !url_matches(s.last().url, url) {
            assert forall|i: int| 0 <= i < w.push(s.last()).len() implies !url_matches(
                #[trigger] w.push(s.last())[i].url,
                url,
            ) by {
                if i < w.len() {
                    assert(w.push(s.last())[i] == w[i]);
                }
            }
            if has_url(s, url) {
                let k = choose|k: int| 0 <= k < s.len() && url_matches(#[trigger] s[k].url, url);
                assert(k < p.len());
                assert(p[k] == s[k]);
            }
        } else {
            assert(url_matches(s[s.len() - 1].url, url));
        }
    }
}

/// The error summary kept with a station: trimmed and at most 96 characters.
pub open spec fn error_summary(error: Seq<char>) -> Seq<char> {
    truncated_with_ellipsis(trim(error), 96)
}

pub fn compact_error_summary(error: &str) -> (r: String)
    ensures
        r@ == error_summary(error@),
        r@.len() <= 96,
{
    let t = str_trim(error);
    truncate_with_ellipsis(t.as_slice(), 96)
}

pub open spec fn health_after_failure(h: crate::radio::StationHealthView, now: Seq<char>, error: Seq<char>) -> crate::radio::StationHealthView {
    crate::radio::StationHealthView {
        last_failure_at: Some(now),
        failure_count: Some(
            match h.failure_count {
                Some(n) => if n == u32::MAX {
                    n
                } else {
                    (n + 1) as u32
                },
                None => 1u32,
            },
        ),
        last_error_summary: error_summary(error),
        ..h
    }
}

pub open spec fn health_after_success(h: crate::radio::StationHealthView, now: Seq<char>) -> crate::radio::StationHealthView {
    crate::radio::StationHealthView {
        last_success_at: Some(now),
        last_error_summary: Seq::empty(),
        ..h
    }
}

/// What the library holds when no usable file could be loaded, and whether
/// the seed should be written.
pub fn fallback_for_missing_library(policy: &MissingLibraryPolicy) -> (r: (Vec<Station>, Settings, bool))
    ensures
        match policy {
            MissingLibraryPolicy::SeedAndSave(seed) => stations_view(r.0@) == stations_view(seed@)
                && r.2,
            MissingLibraryPolicy::Empty => r.0@.len() == 0 && !r.2,
        },
        default_settings(r.1),
{
    match policy {
        MissingLibraryPolicy::SeedAndSave(stations) => (copy_stations(stations), Settings::default(), true),
        MissingLibraryPolicy::Empty => (Vec::new(), Settings::default(), false),
    }
}

/// Like `fallback_for_missing_library`, but never asks to write: an existing
/// file that could not be used must not be overwritten.
pub fn fallback_for_unusable_library(policy: &MissingLibraryPolicy) -> (r: (Vec<Station>, Settings, bool))
    ensures
        match policy {
            MissingLibraryPolicy::SeedAndSave(seed) => stations_view(r.0@) == stations_view(seed@),
            MissingLibraryPolicy::Empty => r.0@.len() == 0,
        },
        !r.2,
        default_settings(r.1),
{
    match policy {
        MissingLibraryPolicy::SeedAndSave(stations) => (copy_stations(stations), Settings::default(), false),
        MissingLibraryPolicy::Empty => (Vec::new(), Settings::default(), false),
    }
}

pub fn fallback_label(policy: &MissingLibraryPolicy) -> (r: &'static str)
    ensures
        r@ == match policy {
            MissingLibraryPolicy::SeedAndSave(_) => "starter stations"@,
            MissingLibraryPolicy::Empty => "empty library"@,
        },
{
    match policy {
        MissingLibraryPolicy::SeedAndSave(_) => "starter stations",
        MissingLibraryPolicy::Empty => "empty library",
    }
}

pub fn copy_stations(v: &Vec<Station>) -> (r: Vec<Station>)
    ensures
        stations_view(r@) == stations_view(v@),
{
    let mut r: Vec<Station> = Vec::new();
    let mut i: usize = 0;
    while i < v.len()
        invariant
            i <= v.len(),
            stations_view(r@) =~= stations_view(v@.take(i as int)),
        decreases v.len() - i,
    {
        let c = v[i].copy();
        let ghost prev = r@;
        r.push(c);
        assert(stations_view(r@) =~= stations_view(prev).push(c@));
        assert(v@.take(i + 1) =~= v@.take(i as int).push(v@[i as int]));
        i += 1;
    }
    assert(v@.take(v.len() as int) =~= v@);
    r
}

} // verus!

verus! {

/// The error type of library operations that may fail.
#[derive(Debug)]
pub struct LibraryError {
    pub message: String,
}

/// Everything but the stations and genre tabs is left as it was.
pub open spec fn same_settings(a: &Library, b: &Library) -> bool {
    a.settings == b.settings && a.path == b.path && a.load_warnings == b.load_warnings
}

/// The genre tabs are those of the current stations.
pub open spec fn genres_current(lib: &Library) -> bool {
    strings_of(lib.available_genres@) == genre_tabs(stations_view(lib.stations@))
}

fn push_tab(tabs: &mut Vec<String>, present: bool, name: &str)
    ensures
        strings_of(final(tabs)@) == strings_of(old(tabs)@) + (if present {
            seq![name@]
        } else {
            Seq::<Seq<char>>::empty()
        }),
{
    if present {
        let ghost prev = tabs@;
        tabs.push(string_from_str(name));
        assert(strings_of(tabs@) =~= strings_of(prev) + seq![name@]);
    } else {
        assert(strings_of(tabs@) =~= strings_of(tabs@) + Seq::<Seq<char>>::empty());
    }
}

impl Library {
    /// An in-memory library, without a file behind it.
    pub fn in_memory(stations: Vec<Station>) -> (lib: Self)
        ensures
            stations_view(lib.stations@) == stations_view(stations@),
            genres_current(&lib),
            lib.path is None,
            lib.load_warnings@.len() == 0,
            lib.settings.theme@ == "Retrowave"@,
            lib.settings.favorites@ == Set::<Seq<char>>::empty(),
            lib.settings.output_device_name is None,
    {
        let mut lib = Library {
            stations,
            available_genres: Vec::new(),
            settings: Settings::default(),
            path: None,
            load_warnings: Vec::new(),
        };
        lib.rebuild_genres();
        lib
    }

    /// Rebuilds the genre tabs from the stations.
    pub fn rebuild_genres(&mut self)
        ensures
            final(self).stations == old(self).stations,
            same_settings(final(self), old(self)),
            genres_current(final(self)),
    {
        let ghost sv = stations_view(self.stations@);
        let mut ambient = false;
        let mut other = false;
        let mut rock = false;
        let mut synthwave = false;
        let mut vaporwave = false;
        let mut i: usize = 0;
        while i < self.stations.len()
            invariant
                i <= self.stations.len(),
                sv == stations_view(self.stations@),
                ambient == exists|j: int| 0 <= j < i && parent_genre(#[trigger] sv[j].genre) == "Ambient"@,
                other == exists|j: int| 0 <= j < i && parent_genre(#[trigger] sv[j].genre) == "Other"@,
                rock == exists|j: int| 0 <= j < i && parent_genre(#[trigger] sv[j].genre) == "Rock"@,
                synthwave == exists|j: int| 0 <= j < i && parent_genre(#[trigger] sv[j].genre) == "Synthwave"@,
                vaporwave == exists|j: int| 0 <= j < i && parent_genre(#[trigger] sv[j].genre) == "Vaporwave"@,
            decreases self.stations.len() - i,
        {
            let g = resolve_parent_genre(self.stations[i].genre.as_str());
            let gc = str_chars(g);
            assert(gc@ == parent_genre(sv[i as int].genre));
            if crate::text::str_eq_chars("Ambient", gc.as_slice()) {
                ambient = true;
            }
            if crate::text::str_eq_chars("Other", gc.as_slice()) {
                other = true;
            }
            if crate::text::str_eq_chars("Rock", gc.as_slice()) {
                rock = true;
            }
            if crate::text::str_eq_chars("Synthwave", gc.as_slice()) {
                synthwave = true;
            }
            if crate::text::str_eq_chars("Vaporwave", gc.as_slice()) {
                vaporwave = true;
            }
            i += 1;
        }
        let mut tabs: Vec<String> = Vec::new();
        tabs.push(string_from_str("All"));
        push_tab(&mut tabs, ambient, "Ambient");
        push_tab(&mut tabs, other, "Other");
        push_tab(&mut tabs, rock, "Rock");
        push_tab(&mut tabs, synthwave, "Synthwave");
        push_tab(&mut tabs, vaporwave, "Vaporwave");
        assert(strings_of(tabs@) =~= genre_tabs(sv));
        self.available_genres = tabs;
    }

    /// Whether the library holds the same station (by UUID, else URL).
    pub fn contains_station(&self, station: &Station) -> (b: bool)
        ensures
            b == (first_identity(stations_view(self.stations@), station@) is Some),
    {
        find_identity(&self.stations, station).is_some()
    }

    /// Adds a station unless the library already holds it; true when added.
    pub fn add(&mut self, station: Station) -> (r: Result<bool, LibraryError>)
        ensures
            r matches Ok(added) && added == (first_identity(
                stations_view(old(self).stations@),
                station@,
            ) is None) && if added {
                stations_view(final(self).stations@) == stations_view(old(self).stations@).push(
                    station@,
                ) && genres_current(final(self))
            } else {
                final(self).stations == old(self).stations && final(self).available_genres
                    == old(self).available_genres
            },
            same_settings(final(self), old(self)),
    {
        if self.contains_station(&station) {
            return Ok(false);
        }
        let ghost prev = self.stations@;
        self.stations.push(station);
        assert(stations_view(self.stations@) =~= stations_view(prev).push(station@));
        self.rebuild_genres();
        Ok(true)
    }

    /// Sets the station at `i` to `st`.
    fn set_station(&mut self, i: usize, st: Station)
        requires
            i < old(self).stations.len(),
        ensures
            stations_view(final(self).stations@) == stations_view(old(self).stations@).update(
                i as int,
                st@,
            ),
            final(self).available_genres == old(self).available_genres,
            same_settings(final(self), old(self)),
    {
        let ghost prev = self.stations@;
        self.stations.set(i, st);
        assert(stations_view(self.stations@) =~= stations_view(prev).update(i as int, st@));
    }

    /// Enriches the first saved station that is the same station as
    /// `station`; true when its metadata changed.
    pub fn enrich_matching_station(&mut self, station: &Station) -> (changed: bool)
        ensures
            match first_identity(stations_view(old(self).stations@), station@) {
                Some(i) => {
                    let saved = stations_view(old(self).stations@)[i];
                    &&& changed == (enriched(saved, station@) != saved)
                    &&& stations_view(final(self).stations@) == stations_view(
                        old(self).stations@,
                    ).update(i, enriched(saved, station@))
                },
                None => !changed && final(self).stations == old(self).stations,
            },
            final(self).available_genres == old(self).available_genres,
            same_settings(final(self), old(self)),
    {
        match find_identity(&self.stations, station) {
            Some(i) => {
                let mut e = self.stations[i].copy();
                let changed = e.enrich_from(station);
                self.set_station(i, e);
                changed
            },
            None => false,
        }
    }

    /// Classifies incoming stations against the library without changing it.
    pub fn preview_import(&self, stations: Vec<Station>) -> (p: ImportPreview)
        ensures
            preview_matches(p, preview_of(stations_view(self.stations@), stations_view(stations@))),
    {
        let ghost lib = stations_view(self.stations@);
        let ghost inc = stations_view(stations@);
        let mut preview = ImportPreview {
            new_stations: Vec::new(),
            duplicates: Vec::new(),
            enrichments: Vec::new(),
            skipped: Vec::new(),
        };
        let mut virt = copy_stations(&self.stations);
        let mut i: usize = 0;
        proof {
            assert(inc.take(0) =~= Seq::<StationView>::empty());
            assert(stations_view(preview.new_stations@) =~= Seq::<StationView>::empty());
            assert(stations_view(preview.duplicates@) =~= Seq::<StationView>::empty());
            assert(stations_view(preview.enrichments@) =~= Seq::<StationView>::empty());
            assert(skips_view(preview.skipped@) =~= Seq::<(Seq<char>, Seq<char>)>::empty());
        }
        while i < stations.len()
            invariant
                i <= stations.len(),
                inc == stations_view(stations@),
                stations_view(virt@) == preview_of(lib, inc.take(i as int)).library,
                preview_matches(preview, preview_of(lib, inc.take(i as int))),
            decreases stations.len() - i,
        {
            let st = &stations[i];
            let ghost state = preview_of(lib, inc.take(i as int));
            assert(inc.take(i + 1).drop_last() =~= inc.take(i as int));
            assert(inc.take(i + 1).last() == st@);
            match import_skip_reason(st) {
                Some(reason) => {
                    let ghost prev = preview.skipped@;
                    let skip = ImportSkip { name: import_skip_name(st), reason };
                    preview.skipped.push(skip);
                    assert(skips_view(preview.skipped@) =~= skips_view(prev).push(
                        (skip_name(st@), skip_reason(st@)->0),
                    ));
                },
                None => {
                    match find_identity(&virt, st) {
                        Some(j) => {
                            let mut e = virt[j].copy();
                            if e.enrich_from(st) {
                                let ghost pv = virt@;
                                virt.set(j, e);
                                assert(stations_view(virt@) =~= stations_view(pv).update(
                                    j as int,
                                    e@,
                                ));
                                let ghost prev = preview.enrichments@;
                                preview.enrichments.push(st.copy());
                                assert(stations_view(preview.enrichments@) =~= stations_view(
                                    prev,
                                ).push(st@));
                            } else {
                                let ghost prev = preview.duplicates@;
                                preview.duplicates.push(st.copy());
                                assert(stations_view(preview.duplicates@) =~= stations_view(
                                    prev,
                                ).push(st@));
                            }
                        },
                        None => {
                            let ghost pv = virt@;
                            virt.push(st.copy());
                            assert(stations_view(virt@) =~= stations_view(pv).push(st@));
                            let ghost prev = preview.new_stations@;
                            preview.new_stations.push(st.copy());
                            assert(stations_view(preview.new_stations@) =~= stations_view(
                                prev,
                            ).push(st@));
                        },
                    }
                },
            }
            i += 1;
        }
        assert(inc.take(stations.len() as int) =~= inc);
        preview
    }

    /// Applies a preview: enrichments are merged into the saved station they
    /// match (or added in `All` mode when none matches), new stations are
    /// added in `All` mode, everything else is counted as skipped.
    pub fn apply_import_preview(&mut self, preview: ImportPreview, mode: ImportMode) -> (r: Result<ImportSummary, LibraryError>)
        requires
            preview.new_stations@.len() + preview.duplicates@.len() + preview.enrichments@.len()
                + preview.skipped@.len() <= usize::MAX,
        ensures
            ({
                let res = apply_preview(stations_view(old(self).stations@), preview, mode);
                &&& r matches Ok(summary) && summary.added == res.added && summary.skipped
                    == res.skipped && summary.enriched == res.enriched
                &&& stations_view(final(self).stations@) == res.stations
                &&& if res.added > 0 || res.enriched > 0 {
                    genres_current(final(self))
                } else {
                    final(self).available_genres == old(self).available_genres
                }
            }),
            same_settings(final(self), old(self)),
    {
        let ghost start_stations = stations_view(self.stations@);
        let ghost enr = stations_view(preview.enrichments@);
        let ghost start = ApplyState {
            stations: start_stations,
            added: 0,
            skipped: (preview.duplicates@.len() + preview.skipped@.len()) as int,
            enriched: 0,
        };
        let ghost old_genres = self.available_genres;
        let ghost old_self = *self;
        let mut added: usize = 0;
        let mut skipped: usize = preview.duplicates.len() + preview.skipped.len();
        let mut enriched_count: usize = 0;
        let mut i: usize = 0;
        assert(enr.take(0) =~= Seq::<StationView>::empty());
        while i < preview.enrichments.len()
            invariant
                i <= preview.enrichments.len(),
                enr == stations_view(preview.enrichments@),
                preview.new_stations@.len() + preview.duplicates@.len() + preview.enrichments@.len()
                    + preview.skipped@.len() <= usize::MAX,
                ({
                    let s = apply_enrichments(start, enr.take(i as int), mode);
                    &&& stations_view(self.stations@) == s.stations
                    &&& added == s.added
                    &&& skipped == s.skipped
                    &&& enriched_count == s.enriched
                }),
                added + skipped + enriched_count == preview.duplicates@.len() + preview.skipped@.len() + i,
                self.available_genres == old_genres,
                same_settings(self, &old_self),
            decreases preview.enrichments.len() - i,
        {
            let st = &preview.enrichments[i];
            assert(enr.take(i + 1).drop_last() =~= enr.take(i as int));
            assert(enr.take(i + 1).last() == st@);
            let ghost s_prev = apply_enrichments(start, enr.take(i as int), mode);
            assert(apply_enrichments(start, enr.take(i + 1), mode) == apply_enrichment_step(s_prev, st@, mode));
            let ghost pre = stations_view(self.stations@);
            let changed = self.enrich_matching_station(st);
            proof {
                lemma_first_identity_exists(pre, st@);
                if !changed {
                    match first_identity(pre, st@) {
                        Some(j) => {
                            assert(pre.update(j, enriched(pre[j], st@)) =~= pre);
                        },
                        None => {},
                    }
                    assert(stations_view(self.stations@) == pre);
                }
            }
            if changed {
                enriched_count += 1;
            } else if mode == ImportMode::All && !self.contains_station(st) {
                let ghost prev = self.stations@;
                self.stations.push(st.copy());
                assert(stations_view(self.stations@) =~= stations_view(prev).push(st@));
                added += 1;
            } else {
                skipped += 1;
            }
            assert(stations_view(self.stations@) == apply_enrichment_step(s_prev, st@, mode).stations);
            assert(added == apply_enrichment_step(s_prev, st@, mode).added);
            assert(skipped == apply_enrichment_step(s_prev, st@, mode).skipped);
            assert(enriched_count == apply_enrichment_step(s_prev, st@, mode).enriched);
            i += 1;
        }
        assert(enr.take(preview.enrichments.len() as int) =~= enr);
        let ghost mid = apply_enrichments(start, enr, mode);
        if mode == ImportMode::All {
            let ghost nw = stations_view(preview.new_stations@);
            let mut k: usize = 0;
            assert(nw.take(0) =~= Seq::<StationView>::empty());
            while k < preview.new_stations.len()
                invariant
                    k <= preview.new_stations.len(),
                    nw == stations_view(preview.new_stations@),
                    ({
                        let s = apply_new(mid, nw.take(k as int));
                        &&& stations_view(self.stations@) == s.stations
                        &&& added == s.added
                        &&& skipped == s.skipped
                        &&& enriched_count == s.enriched
                    }),
                    added + skipped + enriched_count == preview.duplicates@.len() + preview.skipped@.len() + preview.enrichments@.len() + k,
                    preview.new_stations@.len() + preview.duplicates@.len() + preview.enrichments@.len()
                        + preview.skipped@.len() <= usize::MAX,
                    self.available_genres == old_genres,
                    same_settings(self, &old_self),
                decreases preview.new_stations.len() - k,
            {
                let st = &preview.new_stations[k];
                assert(nw.take(k + 1).drop_last() =~= nw.take(k as int));
                assert(nw.take(k + 1).last() == st@);
                if self.contains_station(st) {
                    skipped += 1;
                } else {
                    let ghost prev = self.stations@;
                    self.stations.push(st.copy());
                    assert(stations_view(self.stations@) =~= stations_view(prev).push(st@));
                    added += 1;
                }
                k += 1;
            }
            assert(nw.take(preview.new_stations.len() as int) =~= nw);
        } else {
            skipped += preview.new_stations.len();
        }
        if added > 0 || enriched_count > 0 {
            self.rebuild_genres();
        }
        Ok(ImportSummary { added, skipped, enriched: enriched_count })
    }

    /// Applies the results of a metadata refresh: each match enriches the
    /// saved station it is (or counts as unchanged); stations checked without
    /// a result and without a failure also count as unchanged.
    pub fn apply_metadata_refresh_results(&mut self, checked: usize, matches: Vec<Station>, failed: usize) -> (r: MetadataRefreshSummary)
        requires
            matches@.len() + failed <= usize::MAX,
        ensures
            ({
                let res = refresh_of(stations_view(old(self).stations@), stations_view(matches@));
                let seen = res.enriched + res.unchanged + failed;
                &&& r.checked == checked
                &&& r.failed == failed
                &&& r.enriched == res.enriched
                &&& r.unchanged == res.unchanged + if checked > seen { checked - seen } else { 0 }
                &&& stations_view(final(self).stations@) == res.stations
                &&& if res.enriched > 0 {
                    genres_current(final(self))
                } else {
                    final(self).available_genres == old(self).available_genres
                }
            }),
            same_settings(final(self), old(self)),
    {
        let ghost start = stations_view(self.stations@);
        let ghost ms = stations_view(matches@);
        let ghost old_genres = self.available_genres;
        let ghost old_self = *self;
        let mut enriched_count: usize = 0;
        let mut unchanged: usize = 0;
        let mut i: usize = 0;
        assert(ms.take(0) =~= Seq::<StationView>::empty());
        while i < matches.len()
            invariant
                i <= matches.len(),
                ms == stations_view(matches@),
                matches@.len() + failed <= usize::MAX,
                ({
                    let s = refresh_of(start, ms.take(i as int));
                    &&& stations_view(self.stations@) == s.stations
                    &&& enriched_count == s.enriched
                    &&& unchanged == s.unchanged
                }),
                enriched_count + unchanged == i,
                self.available_genres == old_genres,
                same_settings(self, &old_self),
            decreases matches.len() - i,
        {
            let st = &matches[i];
            assert(ms.take(i + 1).drop_last() =~= ms.take(i as int));
            assert(ms.take(i + 1).last() == st@);
            let ghost pre = stations_view(self.stations@);
            let changed = self.enrich_matching_station(st);
            proof {
                lemma_first_identity_exists(pre, st@);
                if !changed {
                    match first_identity(pre, st@) {
                        Some(j) => {
                            assert(pre.update(j, enriched(pre[j], st@)) =~= pre);
                        },
                        None => {},
                    }
                }
            }
            if changed {
                enriched_count += 1;
            } else {
                unchanged += 1;
            }
            i += 1;
        }
        assert(ms.take(matches.len() as int) =~= ms);
        let seen = enriched_count + unchanged + failed;
        let extra = if checked > seen {
            checked - seen
        } else {
            0
        };
        unchanged += extra;
        if enriched_count > 0 {
            self.rebuild_genres();
        }
        MetadataRefreshSummary { checked, enriched: enriched_count, unchanged, failed }
    }

    /// Removes every station whose URL matches `url`; true when any was.
    pub fn remove(&mut self, url: &str) -> (r: Result<bool, LibraryError>)
        ensures
            r matches Ok(removed) && removed == has_url(stations_view(old(self).stations@), url@),
            stations_view(final(self).stations@) == without_url(stations_view(old(self).stations@), url@),
            !has_url(stations_view(final(self).stations@), url@),
            if has_url(stations_view(old(self).stations@), url@) {
                genres_current(final(self))
            } else {
                final(self).available_genres == old(self).available_genres
            },
            same_settings(final(self), old(self)),
    {
        let ghost sv = stations_view(self.stations@);
        let before = self.stations.len();
        let mut kept: Vec<Station> = Vec::new();
        let mut old_stations: Vec<Station> = Vec::new();
        std::mem::swap(&mut old_stations, &mut self.stations);
        let mut i: usize = 0;
        assert(sv.take(0) =~= Seq::<StationView>::empty());
        while i < old_stations.len()
            invariant
                i <= old_stations.len(),
                sv == stations_view(old_stations@),
                stations_view(kept@) == without_url(sv.take(i as int), url@),
            decreases old_stations.len() - i,
        {
            assert(sv.take(i + 1).drop_last() =~= sv.take(i as int));
            assert(sv.take(i + 1).last() == old_stations@[i as int]@);
            if !station_url_matches(old_stations[i].url.as_str(), url) {
                let ghost prev = kept@;
                kept.push(old_stations[i].copy());
                assert(stations_view(kept@) =~= stations_view(prev).push(old_stations@[i as int]@));
            }
            i += 1;
        }
        assert(sv.take(old_stations.len() as int) =~= sv);
        proof {
            lemma_without_url(sv, url@);
        }
        self.stations = kept;
        let removed = self.stations.len() < before;
        if removed {
            self.rebuild_genres();
        }
        Ok(removed)
    }

    /// Index of the first station whose URL matches `url`.
    fn find_url(&self, url: &str) -> (r: Option<usize>)
        ensures
            match r {
                Some(i) => first_url_at(stations_view(self.stations@), url@, i as int),
                None => !has_url(stations_view(self.stations@), url@),
            },
    {
        let ghost sv = stations_view(self.stations@);
        let mut i: usize = 0;
        while i < self.stations.len()
            invariant
                i <= self.stations.len(),
                sv == stations_view(self.stations@),
                forall|j: int| 0 <= j < i ==> !url_matches(#[trigger] sv[j].url, url@),
            decreases self.stations.len() - i,
        {
            if station_url_matches(self.stations[i].url.as_str(), url) {
                return Some(i);
            }
            i += 1;
        }
        None
    }

    /// Whether some station's URL matches `url`.
    pub fn contains(&self, url: &str) -> (b: bool)
        ensures
            b == has_url(stations_view(self.stations@), url@),
    {
        self.find_url(url).is_some()
    }

    /// Records a successful playback on the first station with this URL:
    /// the time is set and the error summary cleared. True when found.
    pub fn mark_station_success(&mut self, url: &str, now: String) -> (found: bool)
        ensures
            found == has_url(stations_view(old(self).stations@), url@),
            found ==> exists|i: int| first_url_at(stations_view(old(self).stations@), url@, i)
                && stations_view(final(self).stations@) == stations_view(old(self).stations@).update(
                i,
                StationView {
                    health: health_after_success(stations_view(old(self).stations@)[i].health, now@),
                    ..stations_view(old(self).stations@)[i]
                },
            ),
            !found ==> final(self).stations == old(self).stations,
            final(self).available_genres == old(self).available_genres,
            same_settings(final(self), old(self)),
    {
        match self.find_url(url) {
            Some(i) => {
                let mut st = self.stations[i].copy();
                st.health.last_success_at = Some(now);
                st.health.last_error_summary = String::new();
                self.set_station(i, st);
                assert(first_url_at(stations_view(old(self).stations@), url@, i as int));
                true
            },
            None => false,
        }
    }

    /// Records a failed playback on the first station with this URL: the
    /// time is set, the failure count goes up by one (saturating) and the
    /// error summary is kept, trimmed and shortened. True when found.
    pub fn mark_station_failure(&mut self, url: &str, now: String, error: &str) -> (found: bool)
        ensures
            found == has_url(stations_view(old(self).stations@), url@),
            found ==> exists|i: int| first_url_at(stations_view(old(self).stations@), url@, i)
                && stations_view(final(self).stations@) == stations_view(old(self).stations@).update(
                i,
                StationView {
                    health: health_after_failure(
                        stations_view(old(self).stations@)[i].health,
                        now@,
                        error@,
                    ),
                    ..stations_view(old(self).stations@)[i]
                },
            ),
            !found ==> final(self).stations == old(self).stations,
            final(self).available_genres == old(self).available_genres,
            same_settings(final(self), old(self)),
    {
        match self.find_url(url) {
            Some(i) => {
                let mut st = self.stations[i].copy();
                st.health.last_failure_at = Some(now);
                let count = match st.health.failure_count {
                    Some(n) => n,
                    None => 0,
                };
                let next = if count == u32::MAX {
                    count
                } else {
                    count + 1
                };
                st.health.failure_count = Some(next);
                st.health.last_error_summary = compact_error_summary(error);
                self.set_station(i, st);
                assert(first_url_at(stations_view(old(self).stations@), url@, i as int));
                true
            },
            None => false,
        }
    }

    /// Previews and applies an import in `All` mode.
    pub fn import_stations(&mut self, stations: Vec<Station>) -> (r: Result<ImportSummary, LibraryError>)
        requires
            stations@.len() <= usize::MAX,
        ensures
            ({
                let res = import_result(stations_view(old(self).stations@), stations_view(stations@));
                &&& r matches Ok(summary) && summary.added == res.added && summary.skipped
                    == res.skipped && summary.enriched == res.enriched
                &&& stations_view(final(self).stations@) == res.stations
                &&& if res.added > 0 || res.enriched > 0 {
                    genres_current(final(self))
                } else {
                    final(self).available_genres == old(self).available_genres
                }
            }),
            r matches Ok(summary) && summary.added + summary.skipped + summary.enriched
                == stations@.len(),
            same_settings(final(self), old(self)),
    {
        let preview = self.preview_import(stations);
        proof {
            lemma_preview_counts(stations_view(self.stations@), stations_view(stations@));
            assert(preview.skipped@.len() == skips_view(preview.skipped@).len());
            assert(apply_preview(stations_view(self.stations@), preview, ImportMode::All)
                == import_result(stations_view(self.stations@), stations_view(stations@)));
        }
        let r = self.apply_import_preview(preview, ImportMode::All);
        proof {
            lemma_apply_counts(stations_view(old(self).stations@), preview, ImportMode::All);
        }
        r
    }
}

} // verus!

verus! {

/// Each incoming station lands in exactly one of the four lists.
pub proof fn lemma_preview_counts(library: Seq<StationView>, incoming: Seq<StationView>)
    ensures
        ({
            let p = preview_of(library, incoming);
            p.new_stations.len() + p.duplicates.len() + p.enrichments.len() + p.skipped.len()
                == incoming.len()
        }),
    decreases incoming.len(),
{
    if incoming.len() > 0 {
        lemma_preview_counts(library, incoming.drop_last());
    }
}

proof fn lemma_enrichment_counts(s: ApplyState, list: Seq<StationView>, mode: ImportMode)
    ensures
        ({
            let r = apply_enrichments(s, list, mode);
            r.added + r.skipped + r.enriched == s.added + s.skipped + s.enriched + list.len()
        }),
    decreases list.len(),
{
    if list.len() > 0 {
        lemma_enrichment_counts(s, list.drop_last(), mode);
    }
}

proof fn lemma_new_counts(s: ApplyState, list: Seq<StationView>)
    ensures
        ({
            let r = apply_new(s, list);
            r.added + r.skipped + r.enriched == s.added + s.skipped + s.enriched + list.len()
        }),
    decreases list.len(),
{
    if list.len() > 0 {
        lemma_new_counts(s, list.drop_last());
    }
}

/// Applying a preview accounts for every entry of it once: the added,
/// skipped and enriched counts sum to the number of entries.
pub proof fn lemma_apply_counts(stations: Seq<StationView>, p: ImportPreview, mode: ImportMode)
    ensures
        ({
            let r = apply_preview(stations, p, mode);
            r.added + r.skipped + r.enriched == p.new_stations@.len() + p.duplicates@.len()
                + p.enrichments@.len() + p.skipped@.len()
        }),
{
    let start = ApplyState {
        stations,
        added: 0,
        skipped: (p.duplicates@.len() + p.skipped@.len()) as int,
        enriched: 0,
    };
    lemma_enrichment_counts(start, stations_view(p.enrichments@), mode);
    let after = apply_enrichments(start, stations_view(p.enrichments@), mode);
    if mode == ImportMode::All {
        lemma_new_counts(after, stations_view(p.new_stations@));
    }
}

// ---------------------------------------------------------------------------
// Loading and replacing the library file
// ---------------------------------------------------------------------------

/// What reading `library.json` (or its backup) gave.
pub enum LibraryFileRead {
    /// The file parsed: its stations, settings and format version.
    Parsed { stations: Vec<Station>, settings: Settings, version: u32 },
    /// The file could not be read, with the reader's message.
    Unreadable(String),
    /// The file is not a library file, with the parser's message.
    Malformed(String),
}

/// What is found where the library is about to be written.
pub enum LibraryTarget {
    Missing,
    Unreadable(String),
    Malformed(String),
    /// A library file of this format version.
    Version(u32),
}

/// The warning for a library file of another format version than 1.
pub open spec fn version_warning(version: u32) -> Option<Seq<char>> {
    if version == 1 {
        None
    } else if version > 1 {
        Some("Library file version "@ + decimal(version as nat)
            + " is newer than supported version 1; saving is disabled to prevent data loss"@)
    } else {
        Some("Library file version "@ + decimal(version as nat) + " is older than supported version 1"@)
    }
}

fn append_str(out: &mut Vec<char>, s: &str)
    ensures
        final(out)@ == old(out)@ + s@,
{
    let mut c = str_chars(s);
    out.append(&mut c);
}

fn append_chars(out: &mut Vec<char>, s: &[char])
    ensures
        final(out)@ == old(out)@ + s@,
{
    let ghost start = out@;
    let mut i: usize = 0;
    while i < s.len()
        invariant
            i <= s.len(),
            out@ == start + s@.take(i as int),
        decreases s.len() - i,
    {
        out.push(s[i]);
        assert(s@.take(i + 1) =~= s@.take(i as int).push(s@[i as int]));
        i += 1;
    }
    assert(s@.take(s.len() as int) =~= s@);
}

/// The warning for a library file of another format version than 1.
pub fn library_version_warning(version: u32) -> (r: Option<String>)
    ensures
        match version_warning(version) {
            Some(w) => r matches Some(s) && s@ == w,
            None => r is None,
        },
{
    if version == 1 {
        return None;
    }
    let mut out = str_chars("Library file version ");
    append_chars(&mut out, u64_decimal(version as u64).as_slice());
    if version > 1 {
        append_str(&mut out, " is newer than supported version 1; saving is disabled to prevent data loss");
    } else {
        append_str(&mut out, " is older than supported version 1");
    }
    Some(string_from_chars(out.as_slice()))
}

pub open spec fn opt_seq(o: Option<Seq<char>>) -> Seq<Seq<char>> {
    match o {
        Some(w) => seq![w],
        None => Seq::empty(),
    }
}

fn push_version_warning(warnings: &mut Vec<String>, version: u32)
    ensures
        strings_of(final(warnings)@) == strings_of(old(warnings)@) + opt_seq(version_warning(version)),
{
    match library_version_warning(version) {
        Some(w) => {
            let ghost before = warnings@;
            warnings.push(w);
            assert(strings_of(warnings@) =~= strings_of(before) + opt_seq(version_warning(version)));
        },
        None => {
            assert(strings_of(warnings@) =~= strings_of(warnings@) + opt_seq(version_warning(version)));
        },
    }
}

/// The message of a library file that could not be used.
pub open spec fn primary_error(read: LibraryFileRead) -> Seq<char> {
    match read {
        LibraryFileRead::Unreadable(e) => "Could not read library.json: "@ + e@,
        LibraryFileRead::Malformed(e) => "Could not parse library.json: "@ + e@,
        LibraryFileRead::Parsed { .. } => Seq::empty(),
    }
}

/// The library file, if it parsed (with a warning when its version is not
/// 1); otherwise the message of the failure, for the backup to be tried.
pub fn load_primary(read: LibraryFileRead, warnings: &mut Vec<String>) -> (r: Result<(Vec<Station>, Settings), String>)
    ensures
        match read {
            LibraryFileRead::Parsed { stations, settings, version } => {
                &&& r matches Ok((s, t)) && s == stations && t == settings
                &&& strings_of(final(warnings)@) == strings_of(old(warnings)@) + opt_seq(version_warning(version))
            },
            _ => {
                &&& r matches Err(e) && e@ == primary_error(read)
                &&& final(warnings)@ == old(warnings)@
            },
        },
{
    match read {
        LibraryFileRead::Parsed { stations, settings, version } => {
            push_version_warning(warnings, version);
            Ok((stations, settings))
        },
        LibraryFileRead::Unreadable(e) => {
            let mut out = str_chars("Could not read library.json: ");
            append_str(&mut out, e.as_str());
            Err(string_from_chars(out.as_slice()))
        },
        LibraryFileRead::Malformed(e) => {
            let mut out = str_chars("Could not parse library.json: ");
            append_str(&mut out, e.as_str());
            Err(string_from_chars(out.as_slice()))
        },
    }
}

/// The library after the primary file failed: the backup when it parsed
/// (reported, with its own version warning), otherwise the fallback of the
/// policy (reported); the damaged file is never to be overwritten.
pub fn recover_from_backup(
    primary_error: &str,
    backup: LibraryFileRead,
    backup_display: &str,
    policy: &MissingLibraryPolicy,
    warnings: &mut Vec<String>,
) -> (r: (Vec<Station>, Settings, bool))
    ensures
        !r.2,
        match backup {
            LibraryFileRead::Parsed { stations, settings, version } => {
                &&& r.0 == stations
                &&& r.1 == settings
                &&& strings_of(final(warnings)@) == strings_of(old(warnings)@) + seq![
                    primary_error@ + "; recovered the last known good library from "@ + backup_display@
                        + ". The damaged primary file was not overwritten."@,
                ] + opt_seq(version_warning(version))
            },
            _ => {
                &&& strings_of(final(warnings)@) == strings_of(old(warnings)@).push(
                    primary_error@ + "; using a safe in-memory fallback. PulseDeck will not overwrite the existing library automatically."@,
                )
                &&& match policy {
                    MissingLibraryPolicy::SeedAndSave(seed) => stations_view(r.0@) == stations_view(seed@),
                    MissingLibraryPolicy::Empty => r.0@.len() == 0,
                }
                &&& default_settings(r.1)
            },
        },
{
    match backup {
        LibraryFileRead::Parsed { stations, settings, version } => {
            let mut out = str_chars(primary_error);
            append_str(&mut out, "; recovered the last known good library from ");
            append_str(&mut out, backup_display);
            append_str(&mut out, ". The damaged primary file was not overwritten.");
            let ghost before = warnings@;
            warnings.push(string_from_chars(out.as_slice()));
            let ghost mid = warnings@;
            assert(strings_of(mid) =~= strings_of(before).push(out@));
            push_version_warning(warnings, version);
            (stations, settings, false)
        },
        _ => {
            let mut out = str_chars(primary_error);
            append_str(
                &mut out,
                "; using a safe in-memory fallback. PulseDeck will not overwrite the existing library automatically.",
            );
            let ghost before = warnings@;
            warnings.push(string_from_chars(out.as_slice()));
            assert(strings_of(warnings@) =~= strings_of(before).push(out@));
            fallback_for_unusable_library(policy)
        },
    }
}

/// Why the library must not be written over what is at its path: nothing
/// is wrong with no file or a file of version 1 or older; an unreadable or
/// malformed file, or one of a newer version, is refused.
pub open spec fn replace_refusal(target: LibraryTarget, path: Seq<char>) -> Option<Seq<char>> {
    match target {
        LibraryTarget::Missing => None,
        LibraryTarget::Unreadable(e) => Some("refusing to replace unreadable library "@ + path + ": "@ + e@),
        LibraryTarget::Malformed(e) => Some("refusing to replace malformed library "@ + path
            + "; preserve or repair it first: "@ + e@),
        LibraryTarget::Version(v) => if v > 1 {
            Some("refusing to downgrade library "@ + path + " from version "@ + decimal(v as nat)
                + " to version 1"@)
        } else {
            None
        },
    }
}

/// `Err` with the reason when the library must not be written over what is
/// at its path.
pub fn ensure_library_target_is_safe_to_replace(target: &LibraryTarget, path_display: &str) -> (r: Result<(), String>)
    ensures
        match replace_refusal(*target, path_display@) {
            Some(m) => r matches Err(e) && e@ == m,
            None => r is Ok,
        },
{
    match target {
        LibraryTarget::Missing => Ok(()),
        LibraryTarget::Unreadable(e) => {
            let mut out = str_chars("refusing to replace unreadable library ");
            append_str(&mut out, path_display);
            append_str(&mut out, ": ");
            append_str(&mut out, e.as_str());
            Err(string_from_chars(out.as_slice()))
        },
        LibraryTarget::Malformed(e) => {
            let mut out = str_chars("refusing to replace malformed library ");
            append_str(&mut out, path_display);
            append_str(&mut out, "; preserve or repair it first: ");
            append_str(&mut out, e.as_str());
            Err(string_from_chars(out.as_slice()))
        },
        LibraryTarget::Version(v) => {
            if *v > 1 {
                let mut out = str_chars("refusing to downgrade library ");
                append_str(&mut out, path_display);
                append_str(&mut out, " from version ");
                append_chars(&mut out, u64_decimal(*v as u64).as_slice());
                append_str(&mut out, " to version 1");
                Err(string_from_chars(out.as_slice()))
            } else {
                Ok(())
            }
        },
    }
}

} // verus!
