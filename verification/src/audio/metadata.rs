//! ICY stream metadata.

use vstd::prelude::*;
use crate::text::{occurs_at, find, find_chars, slice_range, str_chars, string_from_chars, trim, trim_chars};

verus! {

/// The `StreamTitle` value of an ICY metadata string: the text between the
/// first `StreamTitle='` and the next `';`, trimmed.
pub open spec fn stream_title_of(meta: Seq<char>) -> Option<Seq<char>> {
    match find(meta, "StreamTitle='"@) {
        Some(i) => {
            let rest = meta.skip(i + "StreamTitle='"@.len());
            match find(rest, "';"@) {
                Some(j) => Some(trim(rest.take(j))),
                None => None,
            }
        },
        None => None,
    }
}

pub fn parse_stream_title(meta: &str) -> (r: Option<String>)
    ensures
        match stream_title_of(meta@) {
            Some(t) => r matches Some(s) && s@ == t,
            None => r is None,
        },
{
    let m = str_chars(meta);
    let key = str_chars("StreamTitle='");
    let close = str_chars("';");
    match find_chars(m.as_slice(), key.as_slice()) {
        Some(start_idx) => {
            assert(occurs_at(m@, key@, start_idx as int));
            assert(start_idx + key@.len() <= m@.len());
            assert(key@.len() == key.len());
            assert(m@.len() == m.len());
            let value_start = start_idx + key.len();
            let rest = slice_range(m.as_slice(), value_start, m.len());
            assert(rest@ =~= meta@.skip(value_start as int));
            match find_chars(rest.as_slice(), close.as_slice()) {
                Some(end_idx) => {
                    let title = slice_range(rest.as_slice(), 0, end_idx);
                    assert(title@ =~= rest@.take(end_idx as int));
                    let t = trim_chars(title.as_slice());
                    Some(string_from_chars(t.as_slice()))
                },
                None => None,
            }
        },
        None => None,
    }
}

} // verus!
