//! Radio stations: the record kept for each station, how two records are
//! recognised as the same station, and how a saved record takes in fresher
//! metadata.

use vstd::prelude::*;
use crate::text::{
    ascii_lower, chars_ascii_lower, chars_eq, chars_eq_ignore_ascii_case, eq_ignore_ascii_case,
    str_chars, str_trim, string_from_chars, string_from_str, trim, trim_end_char,
    trim_end_char_exec,
};

verus! {

/// What is known about a station's recent playback attempts.
#[derive(Debug, Clone, PartialEq, Eq, Default)]
pub struct StationHealth {
    pub last_success_at: Option<String>,
    pub last_failure_at: Option<String>,
    pub failure_count: Option<u32>,
    pub last_error_summary: String,
}

pub struct StationHealthView {
    pub last_success_at: Option<Seq<char>>,
    pub last_failure_at: Option<Seq<char>>,
    pub failure_count: Option<u32>,
    pub last_error_summary: Seq<char>,
}

pub open spec fn opt_string_view(o: Option<String>) -> Option<Seq<char>> {
    match o {
        Some(s) => Some(s@),
        None => None,
    }
}

impl View for StationHealth {
    type V = StationHealthView;

    open spec fn view(&self) -> StationHealthView {
        StationHealthView {
            last_success_at: opt_string_view(self.last_success_at),
            last_failure_at: opt_string_view(self.last_failure_at),
            failure_count: self.failure_count,
            last_error_summary: self.last_error_summary@,
        }
    }
}

impl StationHealth {
    /// Nothing has been recorded yet.
    pub fn is_empty(&self) -> (b: bool)
        ensures
            b == (self.last_success_at is None && self.last_failure_at is None
                && self.failure_count is None && self.last_error_summary@.len() == 0),
    {
        self.last_success_at.is_none() && self.last_failure_at.is_none()
            && self.failure_count.is_none() && self.last_error_summary.as_str().is_empty()
    }
}

#[derive(Debug, Clone, PartialEq, Eq)]
pub struct Station {
    pub name: String,
    pub url: String,
    pub genre: String,
    pub country: String,
    pub bitrate: u32,
    pub station_uuid: Option<String>,
    pub country_code: String,
    pub tags: Vec<String>,
    pub language: String,
    pub codec: String,
    pub homepage: String,
    pub click_count: Option<u32>,
    pub health: StationHealth,
}

pub struct StationView {
    pub name: Seq<char>,
    pub url: Seq<char>,
    pub genre: Seq<char>,
    pub country: Seq<char>,
    pub bitrate: u32,
    pub station_uuid: Option<Seq<char>>,
    pub country_code: Seq<char>,
    pub tags: Seq<Seq<char>>,
    pub language: Seq<char>,
    pub codec: Seq<char>,
    pub homepage: Seq<char>,
    pub click_count: Option<u32>,
    pub health: StationHealthView,
}

impl View for Station {
    type V = StationView;

    open spec fn view(&self) -> StationView {
        StationView {
            name: self.name@,
            url: self.url@,
            genre: self.genre@,
            country: self.country@,
            bitrate: self.bitrate,
            station_uuid: opt_string_view(self.station_uuid),
            country_code: self.country_code@,
            tags: self.tags@.map_values(|t: String| t@),
            language: self.language@,
            codec: self.codec@,
            homepage: self.homepage@,
            click_count: self.click_count,
            health: self.health@,
        }
    }
}

pub open spec fn stations_view(s: Seq<Station>) -> Seq<StationView> {
    s.map_values(|st: Station| st@)
}

/// The form in which station URLs are compared: trimmed, ASCII lowercase,
/// without trailing `/`.
pub open spec fn normalized_url(url: Seq<char>) -> Seq<char> {
    trim_end_char(ascii_lower(trim(url)), '/')
}

/// Two URLs name the same stream.
pub open spec fn url_matches(a: Seq<char>, b: Seq<char>) -> bool {
    normalized_url(a) == normalized_url(b)
}

/// The Radio Browser UUID used for matching: trimmed, absent when blank.
pub open spec fn uuid_key(uuid: Option<Seq<char>>) -> Option<Seq<char>> {
    match uuid {
        Some(u) => if trim(u).len() > 0 {
            Some(trim(u))
        } else {
            None
        },
        None => None,
    }
}

/// Two records are the same station: by UUID (ignoring ASCII case) when
/// both have one, otherwise by normalised URL.
pub open spec fn identity_matches(a: StationView, b: StationView) -> bool {
    match (uuid_key(a.station_uuid), uuid_key(b.station_uuid)) {
        (Some(x), Some(y)) => eq_ignore_ascii_case(x, y),
        _ => url_matches(a.url, b.url),
    }
}

/// A text field takes the incoming value when that value is not blank.
pub open spec fn enrich_text(saved: Seq<char>, incoming: Seq<char>) -> Seq<char> {
    if trim(saved).len() == 0 && trim(incoming).len() > 0 {
        incoming
    } else {
        saved
    }
}

/// `saved` after taking in the metadata of `incoming`. Identity and display
/// fields (name, URL, genre, country) and health are kept; the metadata
/// fields (UUID, bitrate, codec, country code, language, homepage, tags and
/// click count) are filled in from `incoming` where the saved station has
/// none and the incoming one has a value; a value already saved is kept.
pub open spec fn enriched(saved: StationView, incoming: StationView) -> StationView {
    StationView {
        station_uuid: if uuid_key(saved.station_uuid) is None && uuid_key(
            incoming.station_uuid,
        ) is Some {
            incoming.station_uuid
        } else {
            saved.station_uuid
        },
        bitrate: if saved.bitrate == 0 && incoming.bitrate > 0 {
            incoming.bitrate
        } else {
            saved.bitrate
        },
        codec: enrich_text(saved.codec, incoming.codec),
        country_code: enrich_text(saved.country_code, incoming.country_code),
        language: enrich_text(saved.language, incoming.language),
        homepage: enrich_text(saved.homepage, incoming.homepage),
        tags: if saved.tags.len() == 0 && incoming.tags.len() > 0 {
            incoming.tags
        } else {
            saved.tags
        },
        click_count: if saved.click_count is None && incoming.click_count is Some {
            incoming.click_count
        } else {
            saved.click_count
        },
        ..saved
    }
}

pub fn opt_string_clone(o: &Option<String>) -> (r: Option<String>)
    ensures
        opt_string_view(r) == opt_string_view(*o),
{
    match o {
        Some(s) => Some(s.clone()),
        None => None,
    }
}

pub fn strings_clone(v: &Vec<String>) -> (r: Vec<String>)
    ensures
        r@.map_values(|t: String| t@) == v@.map_values(|t: String| t@),
{
    let mut r: Vec<String> = Vec::new();
    let mut i: usize = 0;
    while i < v.len()
        invariant
            i <= v.len(),
            r@ == v@.take(i as int),
        decreases v.len() - i,
    {
        r.push(v[i].clone());
        assert(v@.take(i + 1) =~= v@.take(i as int).push(v@[i as int]));
        i += 1;
    }
    assert(v@.take(v.len() as int) =~= v@);
    assert(r@ == v@);
    r
}

/// Whether two lists of strings are equal.

impl StationHealth {
    pub fn copy(&self) -> (r: StationHealth)
        ensures
            r@ == self@,
    {
        StationHealth {
            last_success_at: opt_string_clone(&self.last_success_at),
            last_failure_at: opt_string_clone(&self.last_failure_at),
            failure_count: self.failure_count,
            last_error_summary: self.last_error_summary.clone(),
        }
    }
}

impl Station {
    /// A station with the given basics and no further metadata.
    pub fn basic(name: &str, url: &str, genre: &str, country: &str, bitrate: u32) -> (s: Station)
        ensures
            s@.name == name@,
            s@.url == url@,
            s@.genre == genre@,
            s@.country == country@,
            s@.bitrate == bitrate,
            s@.station_uuid is None,
            s@.country_code.len() == 0,
            s@.tags.len() == 0,
            s@.language.len() == 0,
            s@.codec.len() == 0,
            s@.homepage.len() == 0,
            s@.click_count is None,
            s@.health.last_success_at is None,
            s@.health.last_failure_at is None,
            s@.health.failure_count is None,
            s@.health.last_error_summary.len() == 0,
    {
        let s = Station {
            name: string_from_str(name),
            url: string_from_str(url),
            genre: string_from_str(genre),
            country: string_from_str(country),
            bitrate,
            station_uuid: None,
            country_code: String::new(),
            tags: Vec::new(),
            language: String::new(),
            codec: String::new(),
            homepage: String::new(),
            click_count: None,
            health: StationHealth {
                last_success_at: None,
                last_failure_at: None,
                failure_count: None,
                last_error_summary: String::new(),
            },
        };
        assert(s@.tags =~= Seq::<Seq<char>>::empty());
        s
    }

    /// A field-for-field copy.
    pub fn copy(&self) -> (r: Station)
        ensures
            r@ == self@,
    {
        Station {
            name: self.name.clone(),
            url: self.url.clone(),
            genre: self.genre.clone(),
            country: self.country.clone(),
            bitrate: self.bitrate,
            station_uuid: opt_string_clone(&self.station_uuid),
            country_code: self.country_code.clone(),
            tags: strings_clone(&self.tags),
            language: self.language.clone(),
            codec: self.codec.clone(),
            homepage: self.homepage.clone(),
            click_count: self.click_count,
            health: self.health.copy(),
        }
    }

    /// Takes in the metadata of `other`; true when anything changed.
    pub fn enrich_from(&mut self, other: &Station) -> (changed: bool)
        ensures
            final(self)@ == enriched(old(self)@, other@),
            changed == (enriched(old(self)@, other@) != old(self)@),
    {
        let ghost before = self@;
        let mut changed = false;
        let own_key = uuid_key_exec(&self.station_uuid);
        let other_key = uuid_key_exec(&other.station_uuid);
        if own_key.is_none() && other_key.is_some() {
            if !opt_string_eq(&self.station_uuid, &other.station_uuid) {
                changed = true;
            }
            self.station_uuid = opt_string_clone(&other.station_uuid);
        }
        if self.bitrate == 0 && other.bitrate > 0 {
            changed = true;
            self.bitrate = other.bitrate;
        }
        if enrich_text_exec(&mut self.codec, &other.codec) {
            changed = true;
        }
        if enrich_text_exec(&mut self.country_code, &other.country_code) {
            changed = true;
        }
        if enrich_text_exec(&mut self.language, &other.language) {
            changed = true;
        }
        if enrich_text_exec(&mut self.homepage, &other.homepage) {
            changed = true;
        }
        if self.tags.len() == 0 && other.tags.len() > 0 {
            changed = true;
            self.tags = strings_clone(&other.tags);
        }
        if self.click_count.is_none() && other.click_count.is_some() {
            changed = true;
            self.click_count = other.click_count;
        }
        proof {
            let e = enriched(before, other@);
            assert(self@ == e);
            if !changed {
                assert(e == before);
            } else {
                assert(e != before);
            }
        }
        changed
    }
}

fn opt_string_eq(a: &Option<String>, b: &Option<String>) -> (r: bool)
    ensures
        r == (opt_string_view(*a) == opt_string_view(*b)),
{
    match (a, b) {
        (Some(x), Some(y)) => *x == *y,
        (None, None) => true,
        _ => false,
    }
}

/// Sets `field` to `incoming` when that is not blank; true when the field
/// changed.
fn enrich_text_exec(field: &mut String, incoming: &String) -> (changed: bool)
    ensures
        final(field)@ == enrich_text(old(field)@, incoming@),
        changed == (final(field)@ != old(field)@),
{
    let own = str_trim(field.as_str());
    let t = str_trim(incoming.as_str());
    if own.len() == 0 && t.len() > 0 {
        let changed = *field != *incoming;
        *field = incoming.clone();
        changed
    } else {
        false
    }
}

/// The UUID key of an optional UUID.
pub fn uuid_key_exec(uuid: &Option<String>) -> (r: Option<Vec<char>>)
    ensures
        match uuid_key(opt_string_view(*uuid)) {
            Some(k) => r matches Some(v) && v@ == k,
            None => r is None,
        },
{
    match uuid {
        Some(u) => {
            let t = str_trim(u.as_str());
            if t.len() > 0 {
                Some(t)
            } else {
                None
            }
        },
        None => None,
    }
}

/// The trimmed UUID, absent when blank.
pub fn normalize_station_uuid(uuid: String) -> (r: Option<String>)
    ensures
        opt_string_view(r) == uuid_key(Some(uuid@)),
{
    let t = str_trim(uuid.as_str());
    if t.len() > 0 {
        Some(string_from_chars(t.as_slice()))
    } else {
        None
    }
}

fn normalized_url_chars(url: &str) -> (r: Vec<char>)
    ensures
        r@ == normalized_url(url@),
{
    let t = str_trim(url);
    let lower = chars_ascii_lower(t.as_slice());
    trim_end_char_exec(lower.as_slice(), '/')
}

/// The normalised form of a station URL.
pub fn normalized_station_url(url: &str) -> (r: String)
    ensures
        r@ == normalized_url(url@),
{
    let v = normalized_url_chars(url);
    string_from_chars(v.as_slice())
}

pub fn station_url_matches(a: &str, b: &str) -> (r: bool)
    ensures
        r == url_matches(a@, b@),
{
    let x = normalized_url_chars(a);
    let y = normalized_url_chars(b);
    chars_eq(x.as_slice(), y.as_slice())
}

pub fn station_identity_matches(a: &Station, b: &Station) -> (r: bool)
    ensures
        r == identity_matches(a@, b@),
{
    match (uuid_key_exec(&a.station_uuid), uuid_key_exec(&b.station_uuid)) {
        (Some(x), Some(y)) => chars_eq_ignore_ascii_case(x.as_slice(), y.as_slice()),
        _ => station_url_matches(a.url.as_str(), b.url.as_str()),
    }
}

/// The first candidate that is the same station as `station`.

/// Picks, among search results, the record of the same station.
pub fn select_metadata_match(station: &Station, candidates: Vec<Station>) -> (r: Option<Station>)
    ensures
        match r {
            Some(c) => exists|i: int| 0 <= i < candidates@.len() && c@ == candidates@[i]@
                && identity_matches(station@, candidates@[i]@) && forall|j: int| 0 <= j < i
                ==> !identity_matches(station@, #[trigger] candidates@[j]@),
            None => forall|i: int| 0 <= i < candidates@.len() ==> !identity_matches(
                station@,
                #[trigger] candidates@[i]@,
            ),
        },
{
    let mut i: usize = 0;
    while i < candidates.len()
        invariant
            i <= candidates.len(),
            forall|j: int| 0 <= j < i ==> !identity_matches(station@, #[trigger] candidates@[j]@),
        decreases candidates.len() - i,
    {
        if station_identity_matches(station, &candidates[i]) {
            return Some(candidates[i].copy());
        }
        i += 1;
    }
    None
}

} // verus!
