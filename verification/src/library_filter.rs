//! Case-insensitive substring filtering of the library.

use vstd::prelude::*;
use crate::radio::{Station, StationView};
use crate::text::{
    contains, contains_chars, lowercase, slice_range, str_chars, str_trim, string_from_chars,
    to_lowercase, trim,
};

verus! {

/// Maximum query length in characters; characters beyond it are ignored.
pub const LIBRARY_FILTER_MAX_QUERY: usize = 256;

/// The part of the query that is matched: trimmed, cut to its first
/// `LIBRARY_FILTER_MAX_QUERY` characters.
pub open spec fn effective_query(query: Seq<char>) -> Seq<char> {
    let t = trim(query);
    if t.len() > LIBRARY_FILTER_MAX_QUERY {
        t.take(LIBRARY_FILTER_MAX_QUERY as int)
    } else {
        t
    }
}

/// A station matches when the query is blank, or its lowercase form occurs
/// in the lowercase name, genre or one of the tags.
pub open spec fn station_matches(st: StationView, query: Seq<char>) -> bool {
    trim(query).len() == 0 || {
        let q = lowercase(effective_query(query));
        contains(lowercase(st.name), q) || contains(lowercase(st.genre), q) || exists|i: int|
            0 <= i < st.tags.len() && contains(lowercase(#[trigger] st.tags[i]), q)
    }
}

/// The trimmed query cut at the character limit.
fn effective_query_exec(query: &str) -> (r: Vec<char>)
    ensures
        r@ == effective_query(query@),
{
    let t = str_trim(query);
    if t.len() > LIBRARY_FILTER_MAX_QUERY {
        let r = slice_range(t.as_slice(), 0, LIBRARY_FILTER_MAX_QUERY);
        assert(r@ =~= trim(query@).take(LIBRARY_FILTER_MAX_QUERY as int));
        r
    } else {
        t
    }
}

fn lowercase_chars(s: &String) -> (r: Vec<char>)
    ensures
        r@ == lowercase(s@),
{
    let l = to_lowercase(s.as_str());
    str_chars(l.as_str())
}

/// Whether the station's name, genre or a tag contains the query, ignoring
/// case; a blank query matches every station.
pub fn station_matches_query(station: &Station, query: &str) -> (b: bool)
    ensures
        b == station_matches(station@, query@),
{
    let trimmed = str_trim(query);
    if trimmed.len() == 0 {
        return true;
    }
    let effective = effective_query_exec(query);
    let q_string = string_from_chars(effective.as_slice());
    let q = to_lowercase(q_string.as_str());
    let q = str_chars(q.as_str());
    if contains_chars(lowercase_chars(&station.name).as_slice(), q.as_slice()) {
        return true;
    }
    if contains_chars(lowercase_chars(&station.genre).as_slice(), q.as_slice()) {
        return true;
    }
    let mut i: usize = 0;
    while i < station.tags.len()
        invariant
            i <= station.tags.len(),
            q@ == lowercase(effective_query(query@)),
            forall|j: int| 0 <= j < i ==> !contains(lowercase(#[trigger] station@.tags[j]), q@),
        decreases station.tags.len() - i,
    {
        if contains_chars(lowercase_chars(&station.tags[i]).as_slice(), q.as_slice()) {
            assert(contains(lowercase(station@.tags[i as int]), q@));
            return true;
        }
        i += 1;
    }
    false
}

/// The stations of `stations` that match `query`, in their order.
pub open spec fn matching_stations(stations: Seq<StationView>, query: Seq<char>) -> Seq<StationView>
    decreases stations.len(),
{
    if stations.len() == 0 {
        stations
    } else {
        let r = matching_stations(stations.drop_last(), query);
        if station_matches(stations.last(), query) {
            r.push(stations.last())
        } else {
            r
        }
    }
}

/// The stations that match `query`, in order; all of them for a blank query.
pub fn filter_stations<'a>(stations: &'a [Station], query: &str) -> (r: Vec<&'a Station>)
    ensures
        r@.map_values(|s: &Station| s@) == matching_stations(
            stations@.map_values(|s: Station| s@),
            query@,
        ),
{
    let ghost all = stations@.map_values(|s: Station| s@);
    let mut r: Vec<&'a Station> = Vec::new();
    let mut i: usize = 0;
    while i < stations.len()
        invariant
            i <= stations.len(),
            all == stations@.map_values(|s: Station| s@),
            r@.map_values(|s: &Station| s@) == matching_stations(all.take(i as int), query@),
        decreases stations.len() - i,
    {
        assert(all.take(i + 1).drop_last() =~= all.take(i as int));
        assert(all.take(i + 1).last() == stations@[i as int]@);
        let ghost prev = r@;
        if station_matches_query(&stations[i], query) {
            r.push(&stations[i]);
            assert(r@.map_values(|s: &Station| s@) =~= prev.map_values(|s: &Station| s@).push(
                stations@[i as int]@,
            ));
        }
        i += 1;
    }
    assert(all.take(stations.len() as int) =~= all);
    r
}

} // verus!
