//! Playlist files: M3U export and import of stations, and the choice of
//! format by file extension.

use vstd::prelude::*;
use crate::radio::{Station, StationView};
use crate::text::{
    chars_eq_ignore_ascii_case, contains, eq_ignore_ascii_case, find, find_chars,
    first_occurrence, is_ws, occurs_at, slice_range, starts_with, starts_with_chars, str_chars,
    string_from_chars, trim, trim_chars, trim_end, trim_start,
};

verus! {

/// The header line of an M3U playlist.
pub const M3U_HEADER: &'static str = "#EXTM3U\n";

/// The three lines that describe one station in an M3U playlist.
pub open spec fn m3u_entry(name: Seq<char>, genre: Seq<char>, url: Seq<char>) -> Seq<char> {
    "#EXTINF:-1,"@ + name + "\n"@ + "#EXTGENRE:"@ + genre + "\n"@ + url + "\n"@
}

/// The station lines of a playlist, one entry per station in order.
pub open spec fn m3u_body(stations: Seq<StationView>) -> Seq<char>
    decreases stations.len(),
{
    if stations.len() == 0 {
        Seq::empty()
    } else {
        m3u_body(stations.drop_last()) + m3u_entry(
            stations.last().name,
            stations.last().genre,
            stations.last().url,
        )
    }
}

/// The M3U text of a list of stations.
pub open spec fn m3u_text(stations: Seq<StationView>) -> Seq<char> {
    "#EXTM3U\n"@ + m3u_body(stations)
}

/// The index of the first line feed of `t`, if any.
pub open spec fn first_newline(t: Seq<char>) -> Option<int>
    decreases t.len(),
{
    if t.len() == 0 {
        None
    } else if t[0] == '\n' {
        Some(0)
    } else {
        match first_newline(t.drop_first()) {
            Some(i) => Some(i + 1),
            None => None,
        }
    }
}

/// The lines of `t` (`str::lines`, up to a carriage return before a line
/// feed, which the parser trims away anyway): split at each line feed, with
/// no empty line after a final one.
pub open spec fn lines(t: Seq<char>) -> Seq<Seq<char>>
    decreases t.len(),
{
    if t.len() == 0 {
        Seq::empty()
    } else {
        match first_newline(t) {
            Some(i) => if 0 <= i < t.len() {
                seq![t.take(i)] + lines(t.skip(i + 1))
            } else {
                Seq::empty()
            },
            None => seq![t],
        }
    }
}

/// What the parser has gathered: the pending name and genre, and the
/// stations read so far as (name, url, genre).
pub struct M3uState {
    pub name: Seq<char>,
    pub genre: Seq<char>,
    pub found: Seq<(Seq<char>, Seq<char>, Seq<char>)>,
}

pub open spec fn m3u_start() -> M3uState {
    M3uState { name: Seq::empty(), genre: Seq::empty(), found: Seq::empty() }
}

/// The name on an `#EXTINF:` line: what follows the first comma, trimmed;
/// empty without a comma.
pub open spec fn extinf_name(rest: Seq<char>) -> Seq<char> {
    match find(rest, ","@) {
        Some(i) => trim(rest.skip(i + 1)),
        None => Seq::empty(),
    }
}

/// One line of the playlist, trimmed: `#EXTINF:` sets the pending name,
/// `#EXTGENRE:` the pending genre, another line that is not blank and not a
/// comment is a stream URL, which adds a station (named by its URL without a
/// pending name, of genre `Unknown` without a pending genre) and clears the
/// pending name and genre.
pub open spec fn m3u_step(st: M3uState, raw: Seq<char>) -> M3uState {
    let line = trim(raw);
    if starts_with(line, "#EXTINF:"@) {
        M3uState { name: extinf_name(line.skip(8)), ..st }
    } else if starts_with(line, "#EXTGENRE:"@) {
        M3uState { genre: trim(line.skip(10)), ..st }
    } else if line.len() > 0 && line[0] != '#' {
        M3uState {
            name: Seq::empty(),
            genre: Seq::empty(),
            found: st.found.push(
                (
                    if st.name.len() == 0 { line } else { st.name },
                    line,
                    if st.genre.len() == 0 { "Unknown"@ } else { st.genre },
                ),
            ),
        }
    } else {
        st
    }
}

/// The parser run over the lines from the first.
pub open spec fn m3u_fold(st: M3uState, ls: Seq<Seq<char>>) -> M3uState
    decreases ls.len(),
{
    if ls.len() == 0 {
        st
    } else {
        m3u_fold(m3u_step(st, ls[0]), ls.drop_first())
    }
}

/// The stations (name, url, genre) that an M3U text describes.
pub open spec fn m3u_stations(text: Seq<char>) -> Seq<(Seq<char>, Seq<char>, Seq<char>)> {
    m3u_fold(m3u_start(), lines(text)).found
}

/// A station as the importer builds it: name, URL and genre, nothing else.
pub open spec fn is_imported_station(v: StationView, entry: (Seq<char>, Seq<char>, Seq<char>)) -> bool {
    &&& v.name == entry.0
    &&& v.url == entry.1
    &&& v.genre == entry.2
    &&& v.country.len() == 0
    &&& v.bitrate == 0
    &&& v.station_uuid is None
    &&& v.country_code.len() == 0
    &&& v.tags.len() == 0
    &&& v.language.len() == 0
    &&& v.codec.len() == 0
    &&& v.homepage.len() == 0
    &&& v.click_count is None
    &&& v.health.last_success_at is None
    &&& v.health.last_failure_at is None
    &&& v.health.failure_count is None
    &&& v.health.last_error_summary.len() == 0
}

fn append_chars(out: &mut Vec<char>, s: &[char])
    ensures
        final(out)@ == old(out)@ + s@,
{
    let mut i: usize = 0;
    let ghost start = out@;
    while i < s.len()
        invariant
            i <= s.len(),
            out@ == start + s@.take(i as int),
        decreases s.len() - i,
    {
        out.push(s[i]);
        assert(s@.take(i + 1) =~= s@.take(i as int).push(s@[i as int]));
        i += 1;
    }
    assert(s@.take(s.len() as int) =~= s@);
}

/// The M3U text of the stations: a header line, then for each station an
/// `#EXTINF` line with its name, an `#EXTGENRE` line and its URL.
pub fn to_m3u(stations: &[Station]) -> (r: String)
    ensures
        r@ == m3u_text(stations@.map_values(|s: Station| s@)),
{
    let ghost views = stations@.map_values(|s: Station| s@);
    let mut out = str_chars(M3U_HEADER);
    let extinf = str_chars("#EXTINF:-1,");
    let extgenre = str_chars("#EXTGENRE:");
    let newline = str_chars("\n");
    let mut i: usize = 0;
    assert(views.take(0) =~= Seq::<StationView>::empty());
    while i < stations.len()
        invariant
            i <= stations.len(),
            views == stations@.map_values(|s: Station| s@),
            extinf@ == "#EXTINF:-1,"@,
            extgenre@ == "#EXTGENRE:"@,
            newline@ == "\n"@,
            out@ == "#EXTM3U\n"@ + m3u_body(views.take(i as int)),
        decreases stations.len() - i,
    {
        let s = &stations[i];
        let name = str_chars(s.name.as_str());
        let genre = str_chars(s.genre.as_str());
        let url = str_chars(s.url.as_str());
        let ghost before = out@;
        append_chars(&mut out, extinf.as_slice());
        append_chars(&mut out, name.as_slice());
        append_chars(&mut out, newline.as_slice());
        append_chars(&mut out, extgenre.as_slice());
        append_chars(&mut out, genre.as_slice());
        append_chars(&mut out, newline.as_slice());
        append_chars(&mut out, url.as_slice());
        append_chars(&mut out, newline.as_slice());
        assert(views.take(i + 1).drop_last() =~= views.take(i as int));
        assert(views.take(i + 1).last() == s@);
        assert(out@ =~= before + m3u_entry(s@.name, s@.genre, s@.url));
        i += 1;
    }
    assert(views.take(stations.len() as int) =~= views);
    string_from_chars(out.as_slice())
}

/// The first line feed of `t` is at `i` when none comes before it.
proof fn lemma_first_newline(t: Seq<char>, i: int)
    requires
        0 <= i <= t.len(),
        forall|j: int| 0 <= j < i ==> t[j] != '\n',
        i < t.len() ==> t[i] == '\n',
    ensures
        first_newline(t) == if i < t.len() { Some(i) } else { None::<int> },
    decreases t.len(),
{
    if t.len() > 0 && i > 0 {
        assert forall|j: int| 0 <= j < i - 1 implies t.drop_first()[j] != '\n' by {
            assert(t.drop_first()[j] == t[j + 1]);
        }
        lemma_first_newline(t.drop_first(), i - 1);
    }
}

/// The first line of `t` runs up to its first line feed at `i`, or to its
/// end when it has none.
proof fn lemma_lines_split(t: Seq<char>, i: int)
    requires
        0 <= i <= t.len(),
        t.len() > 0,
        forall|j: int| 0 <= j < i ==> t[j] != '\n',
        i < t.len() ==> t[i] == '\n',
    ensures
        lines(t) == if i < t.len() {
            seq![t.take(i)] + lines(t.skip(i + 1))
        } else {
            seq![t]
        },
{
    lemma_first_newline(t, i);
}

/// The parser runs over two runs of lines one after the other.
proof fn lemma_fold_concat(st: M3uState, a: Seq<Seq<char>>, b: Seq<Seq<char>>)
    ensures
        m3u_fold(st, a + b) == m3u_fold(m3u_fold(st, a), b),
    decreases a.len(),
{
    if a.len() > 0 {
        assert((a + b).drop_first() =~= a.drop_first() + b);
        assert((a + b)[0] == a[0]);
        lemma_fold_concat(m3u_step(st, a[0]), a.drop_first(), b);
    } else {
        assert(a + b =~= b);
    }
}

/// The stations (name, url, genre) read from an M3U playlist: `#EXTINF:`
/// lines give the name of the next URL, `#EXTGENRE:` lines its genre, and
/// every other line that is not blank and not a comment is a stream URL.
pub fn from_m3u(text: &str) -> (r: Vec<Station>)
    ensures
        r@.len() == m3u_stations(text@).len(),
        forall|k: int| 0 <= k < r@.len() ==> is_imported_station(#[trigger] r@[k]@, m3u_stations(text@)[k]),
{
    let t = str_chars(text);
    let ghost target = m3u_fold(m3u_start(), lines(text@));
    let mut name: Vec<char> = Vec::new();
    let mut genre: Vec<char> = Vec::new();
    let mut stations: Vec<Station> = Vec::new();
    let extinf = str_chars("#EXTINF:");
    let extgenre = str_chars("#EXTGENRE:");
    let comma = str_chars(",");
    let unknown = str_chars("Unknown");
    let mut start: usize = 0;
    proof {
        reveal_strlit("#EXTINF:");
        reveal_strlit("#EXTGENRE:");
        reveal_strlit(",");
    }
    assert(t@.skip(0) =~= t@);
    assert(found_of(stations@) =~= Seq::<(Seq<char>, Seq<char>, Seq<char>)>::empty());
    assert(M3uState { name: name@, genre: genre@, found: found_of(stations@) } == m3u_start());
    while start < t.len()
        invariant
            start <= t.len(),
            t@ == text@,
            extinf@ == "#EXTINF:"@,
            extgenre@ == "#EXTGENRE:"@,
            comma@ == ","@,
            unknown@ == "Unknown"@,
            target == m3u_fold(m3u_start(), lines(text@)),
            target == m3u_fold(
                M3uState { name: name@, genre: genre@, found: found_of(stations@) },
                lines(t@.skip(start as int)),
            ),
            forall|k: int| 0 <= k < stations@.len() ==> is_imported_station(#[trigger] stations@[k]@, found_of(stations@)[k]),
        decreases t.len() - start,
    {
        proof {
            reveal_strlit("#EXTINF:");
            reveal_strlit("#EXTGENRE:");
            reveal_strlit(",");
        }
        let mut i = start;
        while i < t.len() && t[i] != '\n'
            invariant
                start <= i <= t.len(),
                forall|j: int| start <= j < i ==> t@[j] != '\n',
            decreases t.len() - i,
        {
            i += 1;
        }
        let ghost rest = t@.skip(start as int);
        proof {
            assert forall|j: int| 0 <= j < i - start implies rest[j] != '\n' by {
                assert(rest[j] == t@[start + j]);
            }
            lemma_lines_split(rest, i - start);
            assert(rest.take(i - start) =~= t@.subrange(start as int, i as int));
            if i < t.len() {
                assert(rest.skip(i - start + 1) =~= t@.skip(i + 1));
            } else {
                assert(rest =~= t@.subrange(start as int, i as int));
            }
        }
        let raw = slice_range(t.as_slice(), start, i);
        let ghost st = M3uState { name: name@, genre: genre@, found: found_of(stations@) };
        let line = trim_chars(raw.as_slice());
        if starts_with_chars(line.as_slice(), extinf.as_slice()) {
            let after = slice_range(line.as_slice(), 8, line.len());
            name = match find_chars(after.as_slice(), comma.as_slice()) {
                Some(c) => {
                    let tail = slice_range(after.as_slice(), c + 1, after.len());
                    assert(tail@ =~= after@.skip(c + 1));
                    trim_chars(tail.as_slice())
                },
                None => Vec::new(),
            };
            assert(after@ =~= line@.skip(8));
        } else if starts_with_chars(line.as_slice(), extgenre.as_slice()) {
            let after = slice_range(line.as_slice(), 10, line.len());
            assert(after@ =~= line@.skip(10));
            genre = trim_chars(after.as_slice());
        } else if line.len() > 0 && line[0] != '#' {
            let url = string_from_chars(line.as_slice());
            let nm = if name.len() == 0 { string_from_chars(line.as_slice()) } else { string_from_chars(name.as_slice()) };
            let gn = if genre.len() == 0 { string_from_chars(unknown.as_slice()) } else { string_from_chars(genre.as_slice()) };
            let station = Station::basic(nm.as_str(), url.as_str(), gn.as_str(), "", 0);
            let ghost before = stations@;
            proof {
                reveal_strlit("");
            }
            assert(is_imported_station(station@, (nm@, url@, gn@)));
            stations.push(station);
            assert(found_of(stations@) =~= found_of(before).push((nm@, url@, gn@)));
            assert forall|k: int| 0 <= k < stations@.len() implies is_imported_station(#[trigger] stations@[k]@, found_of(stations@)[k]) by {
                if k < before.len() {
                    assert(stations@[k] == before[k]);
                }
            }
            name = Vec::new();
            genre = Vec::new();
        }
        proof {
            assert(M3uState { name: name@, genre: genre@, found: found_of(stations@) } == m3u_step(st, raw@));
        }
        proof {
            let next = M3uState { name: name@, genre: genre@, found: found_of(stations@) };
            let ls = lines(rest);
            assert(ls[0] == raw@);
            if i < t.len() {
                assert(ls.drop_first() =~= lines(t@.skip(i + 1)));
            } else {
                assert(ls.drop_first() =~= Seq::<Seq<char>>::empty());
                assert(lines(t@.skip(i as int)) =~= Seq::<Seq<char>>::empty());
            }
            assert(m3u_fold(st, ls) == m3u_fold(next, ls.drop_first()));
        }
        start = if i < t.len() { i + 1 } else { i };
        proof {
            if start == t.len() {
                assert(lines(t@.skip(start as int)) =~= Seq::<Seq<char>>::empty());
            }
        }
    }
    stations
}

/// The (name, url, genre) of each station.
pub open spec fn found_of(stations: Seq<Station>) -> Seq<(Seq<char>, Seq<char>, Seq<char>)> {
    stations.map_values(|s: Station| (s.name@, s.url@, s.genre@))
}

/// The file formats a playlist can be saved in.
#[derive(Clone, Copy, Debug, PartialEq, Eq, Structural)]
pub enum PlaylistFormat {
    M3u,
    Json,
}

/// What follows the last `.` of `path` (the whole path without one).
pub open spec fn extension(path: Seq<char>) -> Seq<char>
    decreases path.len(),
{
    if path.len() == 0 {
        path
    } else if path.last() == '.' {
        Seq::empty()
    } else {
        extension(path.drop_last()).push(path.last())
    }
}

/// JSON for a path whose extension is `json` in any ASCII case, else M3U.
pub fn format_for_path(path: &str) -> (f: PlaylistFormat)
    ensures
        f == if eq_ignore_ascii_case(extension(path@), "json"@) {
            PlaylistFormat::Json
        } else {
            PlaylistFormat::M3u
        },
{
    let p = str_chars(path);
    let mut i: usize = p.len();
    assert(p@.take(p.len() as int) =~= p@);
    assert(p@.subrange(p.len() as int, p.len() as int) =~= Seq::<char>::empty());
    while i > 0 && p[i - 1] != '.'
        invariant
            i <= p.len(),
            extension(p@) == extension(p@.take(i as int)) + p@.subrange(i as int, p.len() as int),
        decreases i,
    {
        assert(p@.take(i as int).drop_last() =~= p@.take(i - 1));
        assert(p@.subrange(i - 1, p.len() as int) =~= seq![p@[i - 1]] + p@.subrange(i as int, p.len() as int));
        i -= 1;
    }
    assert(extension(p@.take(i as int)) =~= Seq::<char>::empty());
    let ext = slice_range(p.as_slice(), i, p.len());
    let json = str_chars("json");
    if chars_eq_ignore_ascii_case(ext.as_slice(), json.as_slice()) {
        PlaylistFormat::Json
    } else {
        PlaylistFormat::M3u
    }
}

/// A text field that an M3U line carries unchanged: not empty, no line
/// feed, no white space at either end.
pub open spec fn m3u_safe_field(s: Seq<char>) -> bool {
    &&& s.len() > 0
    &&& !is_ws(s[0])
    &&& !is_ws(s.last())
    &&& forall|j: int| 0 <= j < s.len() ==> s[j] != '\n'
}

/// A station that an M3U playlist carries unchanged: safe name, genre and
/// URL, and a URL that does not start with `#`.
pub open spec fn m3u_safe_station(s: StationView) -> bool {
    &&& m3u_safe_field(s.name)
    &&& m3u_safe_field(s.genre)
    &&& m3u_safe_field(s.url)
    &&& s.url[0] != '#'
}

proof fn lemma_first_newline_props(t: Seq<char>)
    ensures
        (match first_newline(t) {
            Some(i) => 0 <= i < t.len() && t[i] == '\n' && (forall|j: int| 0 <= j < i ==> t[j] != '\n'),
            None => (forall|j: int| 0 <= j < t.len() ==> t[j] != '\n'),
        }),
    decreases t.len(),
{
    if t.len() > 0 && t[0] != '\n' {
        lemma_first_newline_props(t.drop_first());
        assert forall|j: int| 0 < j < t.len() implies t[j] == t.drop_first()[j - 1] by {}
    }
}

/// Lines of text that ends a line are the lines of each part.
proof fn lemma_lines_concat(x: Seq<char>, y: Seq<char>)
    requires
        x.len() == 0 || x.last() == '\n',
    ensures
        lines(x + y) == lines(x) + lines(y),
    decreases x.len(),
{
    if x.len() == 0 {
        assert(x + y =~= y);
        assert(lines(x) =~= Seq::<Seq<char>>::empty());
        assert(lines(x) + lines(y) =~= lines(y));
    } else {
        lemma_first_newline_props(x);
        let i = match first_newline(x) {
            Some(i) => i,
            None => {
                assert(x[x.len() - 1] == '\n');
                0
            },
        };
        lemma_lines_split(x, i);
        let xy = x + y;
        assert forall|j: int| 0 <= j < i implies xy[j] != '\n' by {}
        lemma_lines_split(xy, i);
        assert(xy.take(i) =~= x.take(i));
        assert(xy.skip(i + 1) =~= x.skip(i + 1) + y);
        lemma_lines_concat(x.skip(i + 1), y);
        assert(lines(xy) =~= lines(x) + lines(y));
    }
}

/// A line without a line feed, ended by one, is one line.
proof fn lemma_lines_single(a: Seq<char>)
    requires
        forall|j: int| 0 <= j < a.len() ==> a[j] != '\n',
    ensures
        lines(a + "\n"@) == seq![a],
{
    reveal_strlit("\n");
    let t = a + "\n"@;
    lemma_lines_split(t, a.len() as int);
    assert(t.take(a.len() as int) =~= a);
    assert(t.skip(a.len() as int + 1) =~= Seq::<char>::empty());
    assert(lines(t.skip(a.len() as int + 1)) =~= Seq::<Seq<char>>::empty());
}

/// A field without white space at either end is its own trim.
proof fn lemma_trim_keeps(s: Seq<char>)
    requires
        s.len() > 0,
        !is_ws(s[0]),
        !is_ws(s.last()),
    ensures
        trim(s) == s,
{
    assert(trim_start(s) == s);
}

/// The three lines of one entry add its station.
proof fn lemma_entry_lines(st: M3uState, s: StationView)
    requires
        m3u_safe_station(s),
        st.name.len() == 0,
        st.genre.len() == 0,
    ensures
        m3u_fold(st, lines(m3u_entry(s.name, s.genre, s.url))) == (M3uState {
            name: Seq::empty(),
            genre: Seq::empty(),
            found: st.found.push((s.name, s.url, s.genre)),
        }),
{
    reveal_strlit("#EXTINF:-1,");
    reveal_strlit("#EXTGENRE:");
    reveal_strlit("#EXTINF:");
    reveal_strlit("\n");
    reveal_strlit(",");
    reveal_strlit("-1,");
    let l1 = "#EXTINF:-1,"@ + s.name;
    let l2 = "#EXTGENRE:"@ + s.genre;
    let l3 = s.url;
    let nl = "\n"@;
    assert(m3u_entry(s.name, s.genre, s.url) =~= (l1 + nl) + ((l2 + nl) + (l3 + nl)));
    assert forall|j: int| 0 <= j < l1.len() implies l1[j] != '\n' by {
        if j >= 11 {
            assert(l1[j] == s.name[j - 11]);
        }
    }
    assert forall|j: int| 0 <= j < l2.len() implies l2[j] != '\n' by {
        if j >= 10 {
            assert(l2[j] == s.genre[j - 10]);
        }
    }
    lemma_lines_single(l1);
    lemma_lines_single(l2);
    lemma_lines_single(l3);
    lemma_lines_concat(l2 + nl, l3 + nl);
    lemma_lines_concat(l1 + nl, (l2 + nl) + (l3 + nl));
    let ls = lines(m3u_entry(s.name, s.genre, s.url));
    assert(ls =~= seq![l1, l2, l3]);
    // The name line.
    assert(l1.last() == s.name.last());
    lemma_trim_keeps(l1);
    assert(starts_with(l1, "#EXTINF:"@)) by {
        assert(l1.take(8) =~= "#EXTINF:"@);
    }
    let rest = l1.skip(8);
    assert(rest =~= "-1,"@ + s.name) by {
        reveal_strlit("-1,");
    }
    assert(occurs_at(rest, ","@, 2)) by {
        assert(rest.subrange(2, 3) =~= ","@);
    }
    assert(first_occurrence(rest, ","@, 2)) by {
        reveal_strlit("-1,");
        assert forall|j: int| 0 <= j < 2 implies !occurs_at(rest, ","@, j) by {
            assert(rest[j] == "-1,"@[j]);
            assert(rest.subrange(j, j + 1)[0] == rest[j]);
        }
    }
    assert(find(rest, ","@) == Some(2int)) by {
        assert(contains(rest, ","@));
        let k = choose|k: int| first_occurrence(rest, ","@, k);
        assert(first_occurrence(rest, ","@, k));
        if k < 2 {
            assert(!occurs_at(rest, ","@, k));
        } else if k > 2 {
            assert(occurs_at(rest, ","@, 2));
        }
    }
    assert(rest.skip(3) =~= s.name);
    lemma_trim_keeps(s.name);
    let st1 = m3u_step(st, l1);
    assert(st1 == M3uState { name: s.name, ..st });
    // The genre line.
    assert(l2.last() == s.genre.last());
    lemma_trim_keeps(l2);
    assert(!starts_with(l2, "#EXTINF:"@)) by {
        assert(l2[4] == 'G');
        assert("#EXTINF:"@[4] == 'I');
        if starts_with(l2, "#EXTINF:"@) {
            assert(l2.take(8)[4] == l2[4]);
        }
    }
    assert(starts_with(l2, "#EXTGENRE:"@)) by {
        assert(l2.take(10) =~= "#EXTGENRE:"@);
    }
    assert(l2.skip(10) =~= s.genre);
    lemma_trim_keeps(s.genre);
    let st2 = m3u_step(st1, l2);
    assert(st2 == M3uState { name: s.name, genre: s.genre, found: st.found });
    // The URL line.
    lemma_trim_keeps(l3);
    assert(!starts_with(l3, "#EXTINF:"@)) by {
        if starts_with(l3, "#EXTINF:"@) {
            assert(l3.take(8)[0] == l3[0]);
        }
    }
    assert(!starts_with(l3, "#EXTGENRE:"@)) by {
        if starts_with(l3, "#EXTGENRE:"@) {
            assert(l3.take(10)[0] == l3[0]);
        }
    }
    let st3 = m3u_step(st2, l3);
    assert(ls.drop_first() =~= seq![l2, l3]);
    assert(ls.drop_first().drop_first() =~= seq![l3]);
    assert(ls.drop_first().drop_first().drop_first() =~= Seq::<Seq<char>>::empty());
    assert(m3u_fold(st3, Seq::<Seq<char>>::empty()) == st3);
    assert(m3u_fold(st2, seq![l3]) == m3u_fold(st3, seq![l3].drop_first()));
    assert(seq![l3].drop_first() =~= Seq::<Seq<char>>::empty());
    assert(m3u_fold(st1, seq![l2, l3]) == m3u_fold(st2, seq![l2, l3].drop_first()));
    assert(seq![l2, l3].drop_first() =~= seq![l3]);
    assert(m3u_fold(st, ls) == m3u_fold(st1, ls.drop_first()));
    assert(m3u_fold(st, ls) == st3);
}

/// The (name, url, genre) of each station view.
pub open spec fn station_triples(stations: Seq<StationView>) -> Seq<(Seq<char>, Seq<char>, Seq<char>)> {
    stations.map_values(|s: StationView| (s.name, s.url, s.genre))
}

proof fn lemma_body_fold(stations: Seq<StationView>)
    requires
        forall|k: int| 0 <= k < stations.len() ==> m3u_safe_station(#[trigger] stations[k]),
    ensures
        m3u_fold(m3u_start(), lines(m3u_body(stations))) == (M3uState {
            name: Seq::empty(),
            genre: Seq::empty(),
            found: station_triples(stations),
        }),
    decreases stations.len(),
{
    if stations.len() == 0 {
        assert(lines(m3u_body(stations)) =~= Seq::<Seq<char>>::empty());
        assert(station_triples(stations) =~= Seq::<(Seq<char>, Seq<char>, Seq<char>)>::empty());
    } else {
        let prev = stations.drop_last();
        let last = stations.last();
        assert(m3u_safe_station(stations[stations.len() - 1]));
        lemma_body_fold(prev);
        let pb = m3u_body(prev);
        let e = m3u_entry(last.name, last.genre, last.url);
        if pb.len() > 0 {
            let pp = prev.drop_last();
            let pl = prev.last();
            assert(pb == m3u_body(pp) + m3u_entry(pl.name, pl.genre, pl.url));
            assert(pb.last() == '\n') by {
                reveal_strlit("\n");
            }
        }
        lemma_lines_concat(pb, e);
        lemma_fold_concat(m3u_start(), lines(pb), lines(e));
        lemma_entry_lines(m3u_fold(m3u_start(), lines(pb)), last);
        assert(station_triples(stations) =~= station_triples(prev).push((last.name, last.url, last.genre)));
    }
}

/// Reading back the M3U text of stations gives each station's name, URL and
/// genre, in order, whenever those fields survive a line of the playlist
/// unchanged (see `m3u_safe_station`).
pub proof fn lemma_m3u_round_trip(stations: Seq<StationView>)
    requires
        forall|k: int| 0 <= k < stations.len() ==> m3u_safe_station(#[trigger] stations[k]),
    ensures
        m3u_stations(m3u_text(stations)) == station_triples(stations),
{
    reveal_strlit("#EXTM3U\n");
    reveal_strlit("#EXTM3U");
    reveal_strlit("\n");
    reveal_strlit("#EXTINF:");
    reveal_strlit("#EXTGENRE:");
    let h = "#EXTM3U"@;
    assert("#EXTM3U\n"@ =~= h + "\n"@);
    lemma_lines_single(h);
    lemma_lines_concat("#EXTM3U\n"@, m3u_body(stations));
    lemma_fold_concat(m3u_start(), seq![h], lines(m3u_body(stations)));
    lemma_trim_keeps(h);
    assert(!starts_with(h, "#EXTINF:"@)) by {
        assert(h.len() < 8);
    }
    assert(!starts_with(h, "#EXTGENRE:"@)) by {
        assert(h.len() < 10);
    }
    assert(m3u_step(m3u_start(), h) == m3u_start());
    assert(seq![h].drop_first() =~= Seq::<Seq<char>>::empty());
    assert(m3u_fold(m3u_start(), Seq::<Seq<char>>::empty()) == m3u_start());
    assert(m3u_fold(m3u_start(), seq![h]) == m3u_fold(m3u_step(m3u_start(), h), seq![h].drop_first()));
    assert(m3u_fold(m3u_start(), seq![h]) == m3u_start());
    lemma_body_fold(stations);
}

/// The file name of a library export made at `unix_time` (seconds).
pub fn export_file_name(unix_time: u64) -> (r: String)
    ensures
        r@ == "pulsedeck-export-"@ + crate::text::decimal(unix_time as nat) + ".m3u"@,
{
    proof {
        reveal_strlit("pulsedeck-export-");
        reveal_strlit(".m3u");
    }
    let mut out = str_chars("pulsedeck-export-");
    append_chars(&mut out, crate::text::u64_decimal(unix_time).as_slice());
    append_chars(&mut out, str_chars(".m3u").as_slice());
    string_from_chars(out.as_slice())
}

} // verus!
