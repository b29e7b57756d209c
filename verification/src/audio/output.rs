//! Output device names: normalisation, matching and the listing shown to the
//! user. Enumerating the host's devices is left to the application.

use vstd::prelude::*;
use crate::sort::{is_stable_order, stable_order};
use crate::text::{
    chars_eq, chars_eq_ignore_ascii_case, eq_ignore_ascii_case, lowercase, str_chars, str_trim,
    string_from_chars, string_from_str, to_lowercase, trim,
};

verus! {

pub const DEFAULT_OUTPUT_DEVICE_LABEL: &'static str = "Default";

/// A configured device name: trimmed, and absent when blank or the default
/// label (in any ASCII case).
pub open spec fn normalized_device_name(value: Option<Seq<char>>) -> Option<Seq<char>> {
    match value {
        Some(v) => if trim(v).len() == 0 || eq_ignore_ascii_case(trim(v), "Default"@) {
            None
        } else {
            Some(trim(v))
        },
        None => None,
    }
}

pub open spec fn opt_str_view(v: Option<&str>) -> Option<Seq<char>> {
    match v {
        Some(s) => Some(s@),
        None => None,
    }
}

pub fn normalize_output_device_name(value: Option<&str>) -> (r: Option<String>)
    ensures
        match normalized_device_name(opt_str_view(value)) {
            Some(n) => r matches Some(s) && s@ == n,
            None => r is None,
        },
{
    let v = match value {
        Some(v) => v,
        None => return None,
    };
    let t = str_trim(v);
    let label = str_chars(DEFAULT_OUTPUT_DEVICE_LABEL);
    proof {
        reveal_strlit("Default");
    }
    if t.len() == 0 || chars_eq_ignore_ascii_case(t.as_slice(), label.as_slice()) {
        None
    } else {
        Some(string_from_chars(t.as_slice()))
    }
}

/// The name shown for a configured device, `Default` when none applies.
pub fn output_device_display_name(value: Option<&str>) -> (r: String)
    ensures
        r@ == match normalized_device_name(opt_str_view(value)) {
            Some(n) => n,
            None => "Default"@,
        },
{
    match normalize_output_device_name(value) {
        Some(n) => n,
        None => string_from_str(DEFAULT_OUTPUT_DEVICE_LABEL),
    }
}

/// Device names match exactly or ignoring ASCII case.
pub fn output_device_names_match(left: &str, right: &str) -> (b: bool)
    ensures
        b == (left@ == right@ || eq_ignore_ascii_case(left@, right@)),
{
    let l = str_chars(left);
    let r = str_chars(right);
    chars_eq(l.as_slice(), r.as_slice()) || chars_eq_ignore_ascii_case(l.as_slice(), r.as_slice())
}

/// The reported names that can be offered: trimmed, without blanks and
/// without the default label.
pub open spec fn usable_device_names(s: Seq<Seq<char>>) -> Seq<Seq<char>>
    decreases s.len(),
{
    if s.len() == 0 {
        s
    } else {
        let r = usable_device_names(s.drop_last());
        let t = trim(s.last());
        if t.len() > 0 && !eq_ignore_ascii_case(t, "Default"@) {
            r.push(t)
        } else {
            r
        }
    }
}

/// `s` with each element dropped that equals, ignoring ASCII case, the last
/// element kept before it (`Vec::dedup_by`).
pub open spec fn dedup_ignore_ascii_case(s: Seq<Seq<char>>) -> Seq<Seq<char>>
    decreases s.len(),
{
    if s.len() == 0 {
        s
    } else {
        let d = dedup_ignore_ascii_case(s.drop_last());
        if d.len() > 0 && eq_ignore_ascii_case(s.last(), d.last()) {
            d
        } else {
            d.push(s.last())
        }
    }
}

pub open spec fn strings_view(v: Seq<String>) -> Seq<Seq<char>> {
    v.map_values(|s: String| s@)
}

/// The device list offered to the user: usable names, stably sorted by
/// their Unicode lowercase form, then with case-insensitive repeats removed.
pub open spec fn device_listing(names: Seq<Seq<char>>, order: Seq<usize>) -> bool {
    let usable = usable_device_names(names);
    is_stable_order(usable.map_values(|n: Seq<char>| lowercase(n)), order)
}

pub fn output_device_names_from_iter(names: Vec<String>) -> (r: Vec<String>)
    ensures
        exists|order: Seq<usize>|
            device_listing(strings_view(names@), order) && strings_view(r@)
                == dedup_ignore_ascii_case(
                order.map_values(|k: usize| usable_device_names(strings_view(names@))[k as int]),
            ),
{
    let ghost src = strings_view(names@);
    let label = str_chars(DEFAULT_OUTPUT_DEVICE_LABEL);
    proof {
        reveal_strlit("Default");
    }
    // Keep the usable names.
    let mut usable: Vec<Vec<char>> = Vec::new();
    let mut i: usize = 0;
    while i < names.len()
        invariant
            i <= names.len(),
            src == strings_view(names@),
            label@ == "Default"@,
            usable@.map_values(|v: Vec<char>| v@) == usable_device_names(src.take(i as int)),
        decreases names.len() - i,
    {
        let t = str_trim(names[i].as_str());
        assert(src.take(i + 1).drop_last() =~= src.take(i as int));
        assert(src.take(i + 1).last() == names@[i as int]@);
        if t.len() > 0 && !chars_eq_ignore_ascii_case(t.as_slice(), label.as_slice()) {
            let ghost prev = usable@;
            usable.push(t);
            assert(usable@.map_values(|v: Vec<char>| v@) =~= prev.map_values(|v: Vec<char>| v@).push(
                t@,
            ));
        }
        i += 1;
    }
    assert(src.take(names.len() as int) =~= src);
    let ghost us = usable_device_names(src);
    // Sort by lowercase keys.
    let mut keys: Vec<Vec<char>> = Vec::new();
    let mut k: usize = 0;
    while k < usable.len()
        invariant
            k <= usable.len(),
            usable@.map_values(|v: Vec<char>| v@) == us,
            keys@.len() == k,
            forall|j: int| 0 <= j < k ==> (#[trigger] keys@[j])@ == lowercase(us[j]),
        decreases usable.len() - k,
    {
        let s = string_from_chars(usable[k].as_slice());
        let lower = to_lowercase(s.as_str());
        keys.push(str_chars(lower.as_str()));
        k += 1;
    }
    let order = stable_order(&keys);
    assert(keys@.map_values(|v: Vec<char>| v@) =~= us.map_values(|n: Seq<char>| lowercase(n)));
    // Arrange in that order, dropping case-insensitive repeats.
    let ghost arranged = order@.map_values(|k: usize| us[k as int]);
    let mut out: Vec<String> = Vec::new();
    let mut last: Vec<char> = Vec::new();
    let mut j: usize = 0;
    while j < order.len()
        invariant
            j <= order.len(),
            order.len() == usable.len(),
            usable@.map_values(|v: Vec<char>| v@) == us,
            forall|q: int| 0 <= q < order.len() ==> (#[trigger] order@[q]) < usable.len(),
            arranged == order@.map_values(|k: usize| us[k as int]),
            strings_view(out@) == dedup_ignore_ascii_case(arranged.take(j as int)),
            out@.len() > 0 ==> last@ == out@.last()@,
        decreases order.len() - j,
    {
        let cand = &usable[order[j]];
        assert(arranged.take(j + 1).drop_last() =~= arranged.take(j as int));
        assert(arranged.take(j + 1).last() == cand@);
        let dup = out.len() > 0 && chars_eq_ignore_ascii_case(cand.as_slice(), last.as_slice());
        if !dup {
            let s = string_from_chars(cand.as_slice());
            let ghost prev = out@;
            out.push(s);
            assert(strings_view(out@) =~= strings_view(prev).push(cand@));
            last = slice_copy(cand.as_slice());
        } else {
            assert(strings_view(out@).last() == out@.last()@);
        }
        j += 1;
    }
    assert(arranged.take(order.len() as int) =~= arranged);
    assert(device_listing(src, order@));
    out
}

fn slice_copy(v: &[char]) -> (r: Vec<char>)
    ensures
        r@ == v@,
{
    crate::text::slice_range(v, 0, v.len())
}

/// What opening the output does when the named device `name` was not
/// found among the host's devices: a strict selection (the user's explicit
/// switch) refuses, so that no other device is reported as chosen; a lenient
/// one (startup and recovery) falls back to the default device.
pub fn missing_device_policy(name: &str, strict: bool) -> (r: Result<(), String>)
    ensures
        strict ==> (r matches Err(m) && m@ == "selected output device '"@ + name@ + "' was not found"@),
        !strict ==> r is Ok,
{
    if strict {
        proof {
            reveal_strlit("selected output device '");
            reveal_strlit("' was not found");
        }
        let mut out = str_chars("selected output device '");
        out.append(&mut str_chars(name));
        out.append(&mut str_chars("' was not found"));
        Err(string_from_chars(out.as_slice()))
    } else {
        Ok(())
    }
}

} // verus!
