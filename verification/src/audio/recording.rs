//! Naming and tagging of local recordings.

use vstd::prelude::*;
use crate::text::{
    occurs_at, find, find_chars, slice_range, str_chars, string_from_chars, string_from_str, trim,
    trim_chars,
};

verus! {

/// The `(artist, title)` pair read from an `Artist - Title` track title.
pub open spec fn artist_title_of(title: Seq<char>) -> (Seq<char>, Seq<char>) {
    match find(title, " - "@) {
        Some(pos) if trim(title.take(pos)).len() > 0 && trim(title.skip(pos + 3)).len() > 0 => (
            trim(title.take(pos)),
            trim(title.skip(pos + 3)),
        ),
        _ => ("Unknown Artist"@, trim(title)),
    }
}

/// Splits `Artist - Title` at the first ` - `; without a usable artist and
/// title the artist is `Unknown Artist` and the whole title is kept.
pub fn split_artist_title(title: &str) -> (r: (String, String))
    ensures
        (r.0@, r.1@) == artist_title_of(title@),
{
    let t = str_chars(title);
    let sep = str_chars(" - ");
    proof {
        reveal_strlit(" - ");
    }
    if let Some(pos) = find_chars(t.as_slice(), sep.as_slice()) {
        assert(occurs_at(t@, sep@, pos as int));
        assert(sep@.len() == 3);
        assert(pos + sep@.len() <= t@.len());
        assert(t@.len() == t.len());
        let head = slice_range(t.as_slice(), 0, pos);
        let tail = slice_range(t.as_slice(), pos + 3, t.len());
        assert(head@ =~= title@.take(pos as int));
        assert(tail@ =~= title@.skip(pos + 3));
        let artist = trim_chars(head.as_slice());
        let track_title = trim_chars(tail.as_slice());
        if artist.len() > 0 && track_title.len() > 0 {
            return (string_from_chars(artist.as_slice()), string_from_chars(track_title.as_slice()));
        }
    }
    let whole = trim_chars(t.as_slice());
    (string_from_str("Unknown Artist"), string_from_chars(whole.as_slice()))
}

pub open spec fn album_label_of(source_url: Option<Seq<char>>) -> Seq<char> {
    match source_url {
        Some(url) if trim(url).len() > 0 => "PulseDeck live capture · "@ + url,
        _ => "PulseDeck live capture"@,
    }
}

/// The album of a recording: the capture label, with the source URL when
/// one is given and not blank.
pub fn album_label(source_url: Option<&str>) -> (r: String)
    ensures
        r@ == album_label_of(
            match source_url {
                Some(u) => Some(u@),
                None => None,
            },
        ),
{
    match source_url {
        Some(url) => {
            let u = str_chars(url);
            let t = trim_chars(u.as_slice());
            if t.len() > 0 {
                let mut out = str_chars("PulseDeck live capture · ");
                let mut rest = u;
                out.append(&mut rest);
                return string_from_chars(out.as_slice());
            }
            string_from_str("PulseDeck live capture")
        },
        None => string_from_str("PulseDeck live capture"),
    }
}

/// The notice shown when a recording of the same track already exists.
pub fn duplicate_skip_message(title: &str) -> (r: String)
    ensures
        r@ == "Duplicate recording skipped: "@ + title@,
{
    let mut out = str_chars("Duplicate recording skipped: ");
    let mut t = str_chars(title);
    out.append(&mut t);
    string_from_chars(out.as_slice())
}

/// Characters that host file systems refuse in file names.
pub open spec fn is_unsafe_filename_char(c: char) -> bool {
    c == '\\' || c == '/' || c == ':' || c == '*' || c == '?' || c == '"' || c == '<' || c == '>'
        || c == '|'
}

/// `name` with each unsafe character replaced by `-`.
pub open spec fn sanitized_filename(name: Seq<char>) -> Seq<char> {
    name.map_values(|c: char| if is_unsafe_filename_char(c) { '-' } else { c })
}

pub fn sanitize_filename(name: &str) -> (r: String)
    ensures
        r@ == sanitized_filename(name@),
{
    let v = str_chars(name);
    let mut out: Vec<char> = Vec::new();
    let mut i: usize = 0;
    while i < v.len()
        invariant
            i <= v.len(),
            v@ == name@,
            out@ =~= sanitized_filename(v@.take(i as int)),
        decreases v.len() - i,
    {
        let c = v[i];
        let mapped = if c == '\\' || c == '/' || c == ':' || c == '*' || c == '?' || c == '"' || c
            == '<' || c == '>' || c == '|' {
            '-'
        } else {
            c
        };
        out.push(mapped);
        i += 1;
    }
    assert(v@.take(v.len() as int) =~= v@);
    string_from_chars(out.as_slice())
}

} // verus!
