//! The names of the files kept beside a persisted file: its backup, a copy
//! of a damaged file, and the temporary file a write goes through. The
//! filesystem work itself is the caller's.

use vstd::prelude::*;
use crate::text::{decimal, str_chars, string_from_chars, u64_decimal};

verus! {

/// The name used for a path without a file name.
pub open spec fn fallback_file_name() -> Seq<char> {
    "pulsedeck-data"@
}

/// The name of the sibling of a file named `file_name` (none when the path
/// has no file name): the name with `suffix` appended.
pub open spec fn sibling_name(file_name: Option<Seq<char>>, suffix: Seq<char>) -> Seq<char> {
    match file_name {
        Some(n) => n + suffix,
        None => fallback_file_name() + suffix,
    }
}

fn push_all(out: &mut Vec<char>, s: &[char])
    ensures
        final(out)@ == old(out)@ + s@,
{
    let ghost start = out@;
    let mut i: usize = 0;
    while i < s.len()
        invariant
            i <= s.len(),
            out@ == start + s@.take(i as int),
        decreases s.len() - i,
    {
        out.push(s[i]);
        assert(s@.take(i + 1) =~= s@.take(i as int).push(s@[i as int]));
        i += 1;
    }
    assert(s@.take(s.len() as int) =~= s@);
}

/// The file name of the sibling of a file named `file_name` with `suffix`.
pub fn sibling_file_name(file_name: Option<&str>, suffix: &str) -> (r: String)
    ensures
        r@ == sibling_name(
            match file_name {
                Some(n) => Some(n@),
                None => None,
            },
            suffix@,
        ),
{
    let mut out = match file_name {
        Some(n) => str_chars(n),
        None => {
            proof {
                reveal_strlit("pulsedeck-data");
            }
            str_chars("pulsedeck-data")
        },
    };
    push_all(&mut out, str_chars(suffix).as_slice());
    string_from_chars(out.as_slice())
}

/// The file name of the backup kept of a file named `file_name`.
pub fn backup_file_name(file_name: Option<&str>) -> (r: String)
    ensures
        r@ == sibling_name(
            match file_name {
                Some(n) => Some(n@),
                None => None,
            },
            ".bak"@,
        ),
{
    sibling_file_name(file_name, ".bak")
}

/// The suffix of the preserved copy of a damaged file, from the time in
/// seconds and a per-process sequence number.
pub fn corrupt_copy_suffix(stamp: u64, sequence: u64) -> (r: String)
    ensures
        r@ == ".corrupt-"@ + decimal(stamp as nat) + "-"@ + decimal(sequence as nat),
{
    proof {
        reveal_strlit(".corrupt-");
        reveal_strlit("-");
    }
    let mut out = str_chars(".corrupt-");
    push_all(&mut out, u64_decimal(stamp).as_slice());
    push_all(&mut out, str_chars("-").as_slice());
    push_all(&mut out, u64_decimal(sequence).as_slice());
    string_from_chars(out.as_slice())
}

/// The suffix of a temporary file of a write, from the process id and a
/// per-process sequence number.
pub fn temp_file_suffix(process_id: u32, sequence: u64) -> (r: String)
    ensures
        r@ == ".tmp-"@ + decimal(process_id as nat) + "-"@ + decimal(sequence as nat),
{
    proof {
        reveal_strlit(".tmp-");
        reveal_strlit("-");
    }
    let mut out = str_chars(".tmp-");
    push_all(&mut out, u64_decimal(process_id as u64).as_slice());
    push_all(&mut out, str_chars("-").as_slice());
    push_all(&mut out, u64_decimal(sequence).as_slice());
    string_from_chars(out.as_slice())
}

} // verus!
