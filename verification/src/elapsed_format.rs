//! Formatting of elapsed listening time as `MM:SS` or `H:MM:SS`, and the
//! parser that reads such text back.

use std::time::Duration;
use vstd::prelude::*;
use crate::text::{
    all_digits, digits_value,
    decimal, decimal2, parse_unsigned, parse_unsigned_chars, str_chars, string_from_chars, u64_decimal,
    u64_decimal2,
};
use crate::time::{duration_as_secs, duration_secs};

verus! {

pub const SECONDS_PER_MINUTE: u64 = 60;

pub const SECONDS_PER_HOUR: u64 = 3600;

pub const MAX_DISPLAY_SECONDS: u64 = 359_999;

/// The display of `total` seconds: `MM:SS` below one hour, `H:MM:SS` from
/// there on, the count being clamped to `MAX_DISPLAY_SECONDS` first.
pub open spec fn elapsed_text(total: nat) -> Seq<char> {
    let t = if total > MAX_DISPLAY_SECONDS { MAX_DISPLAY_SECONDS as nat } else { total };
    if t < SECONDS_PER_HOUR {
        decimal2(t / 60) + seq![':'] + decimal2(t % 60)
    } else {
        decimal(t / 3600) + seq![':'] + decimal2((t % 3600) / 60) + seq![':'] + decimal2(
            t % 60,
        )
    }
}

/// Formats a duration as elapsed time; fractions of a second are dropped.
pub fn format_elapsed(duration: Duration) -> (r: String)
    ensures
        r@ == elapsed_text(duration_secs(duration) as nat),
{
    let secs = duration_as_secs(&duration);
    format_elapsed_secs(secs)
}

/// Formats a whole number of seconds as elapsed time.
pub fn format_elapsed_secs(secs: u64) -> (r: String)
    ensures
        r@ == elapsed_text(secs as nat),
{
    let total = if secs > MAX_DISPLAY_SECONDS { MAX_DISPLAY_SECONDS } else { secs };
    let mut out: Vec<char> = Vec::new();
    if total < SECONDS_PER_HOUR {
        out.append(&mut u64_decimal2(total / SECONDS_PER_MINUTE));
        out.push(':');
        out.append(&mut u64_decimal2(total % SECONDS_PER_MINUTE));
    } else {
        let hours = total / SECONDS_PER_HOUR;
        let remaining = total % SECONDS_PER_HOUR;
        out.append(&mut u64_decimal(hours));
        out.push(':');
        out.append(&mut u64_decimal2(remaining / SECONDS_PER_MINUTE));
        out.push(':');
        out.append(&mut u64_decimal2(total % SECONDS_PER_MINUTE));
        assert(remaining % 60 == total % 60);
    }
    assert(out@ =~= elapsed_text(secs as nat));
    string_from_chars(out.as_slice())
}

/// The pieces of `s` between occurrences of `sep` (`str::split`).
pub open spec fn split_on(s: Seq<char>, sep: char) -> Seq<Seq<char>>
    decreases s.len(),
{
    if s.len() == 0 {
        seq![Seq::<char>::empty()]
    } else {
        let rest = split_on(s.drop_first(), sep);
        if s[0] == sep {
            seq![Seq::<char>::empty()] + rest
        } else {
            rest.update(0, seq![s[0]] + rest[0])
        }
    }
}

pub proof fn lemma_split_on_nonempty(s: Seq<char>, sep: char)
    ensures
        split_on(s, sep).len() >= 1,
    decreases s.len(),
{
    if s.len() > 0 {
        lemma_split_on_nonempty(s.drop_first(), sep);
    }
}

/// What `parse_elapsed` reads from text, computed over unbounded integers:
/// `MM:SS` or `H:MM:SS`, each field a `u64` numeral, minutes and seconds
/// below 60 where they are not the leading field.
pub open spec fn elapsed_value(s: Seq<char>) -> Option<int> {
    let parts = split_on(s, ':');
    let max = u64::MAX as nat;
    if parts.len() == 2 {
        match (parse_unsigned(parts[0], max), parse_unsigned(parts[1], max)) {
            (Some(m), Some(sec)) => if sec >= 60 {
                None
            } else {
                Some((m * 60 + sec) as int)
            },
            _ => None,
        }
    } else if parts.len() == 3 {
        match (
            parse_unsigned(parts[0], max),
            parse_unsigned(parts[1], max),
            parse_unsigned(parts[2], max),
        ) {
            (Some(h), Some(m), Some(sec)) => if m >= 60 || sec >= 60 {
                None
            } else {
                Some((h * 3600 + m * 60 + sec) as int)
            },
            _ => None,
        }
    } else {
        None
    }
}

/// Splits characters on `sep`.
pub fn split_chars(v: &[char], sep: char) -> (r: Vec<Vec<char>>)
    ensures
        r@.len() == split_on(v@, sep).len(),
        forall|i: int| 0 <= i < r@.len() ==> (#[trigger] r@[i])@ == split_on(v@, sep)[i],
    decreases v.len(),
{
    if v.len() == 0 {
        let mut r: Vec<Vec<char>> = Vec::new();
        r.push(Vec::new());
        return r;
    }
    let mut rest_src: Vec<char> = Vec::new();
    let mut i: usize = 1;
    while i < v.len()
        invariant
            1 <= i <= v.len(),
            rest_src@ == v@.subrange(1, i as int),
        decreases v.len() - i,
    {
        rest_src.push(v[i]);
        assert(v@.subrange(1, i as int).push(v@[i as int]) =~= v@.subrange(1, i + 1));
        i += 1;
    }
    assert(rest_src@ =~= v@.drop_first());
    let rest = split_chars(rest_src.as_slice(), sep);
    proof {
        lemma_split_on_nonempty(v@.drop_first(), sep);
    }
    if v[0] == sep {
        let mut r: Vec<Vec<char>> = Vec::new();
        r.push(Vec::new());
        let mut k: usize = 0;
        while k < rest.len()
            invariant
                k <= rest.len(),
                r@.len() == k + 1,
                r@[0]@ == Seq::<char>::empty(),
                forall|j: int| 1 <= j < r@.len() ==> (#[trigger] r@[j])@ == rest@[j - 1]@,
            decreases rest.len() - k,
        {
            r.push(rest[k].clone());
            k += 1;
        }
        proof {
            let expect = seq![Seq::<char>::empty()] + split_on(v@.drop_first(), sep);
            assert(split_on(v@, sep) == expect);
            assert forall|j: int| 0 <= j < r@.len() implies (#[trigger] r@[j])@ == split_on(
                v@,
                sep,
            )[j] by {
                if j > 0 {
                    assert(expect[j] == split_on(v@.drop_first(), sep)[j - 1]);
                }
            }
        }
        r
    } else {
        assert(rest@.len() >= 1);
        let mut r: Vec<Vec<char>> = Vec::new();
        let mut first: Vec<char> = Vec::new();
        first.push(v[0]);
        let mut k: usize = 0;
        while k < rest[0].len()
            invariant
                rest@.len() >= 1,
                k <= rest@[0]@.len(),
                first@ == seq![v@[0]] + rest@[0]@.take(k as int),
            decreases rest@[0]@.len() - k,
        {
            first.push(rest[0][k]);
            assert(rest@[0]@.take(k + 1) =~= rest@[0]@.take(k as int).push(rest@[0]@[k as int]));
            k += 1;
        }
        assert(rest@[0]@.take(rest@[0]@.len() as int) =~= rest@[0]@);
        r.push(first);
        let mut k: usize = 1;
        while k < rest.len()
            invariant
                1 <= k <= rest.len(),
                r@.len() == k,
                r@[0]@ == seq![v@[0]] + rest@[0]@,
                forall|j: int| 1 <= j < r@.len() ==> (#[trigger] r@[j])@ == rest@[j]@,
            decreases rest.len() - k,
        {
            r.push(rest[k].clone());
            k += 1;
        }
        proof {
            let tail = split_on(v@.drop_first(), sep);
            assert(split_on(v@, sep) == tail.update(0, seq![v@[0]] + tail[0]));
        }
        r
    }
}

/// Reads `MM:SS` or `H:MM:SS` back to a number of seconds.
pub fn parse_elapsed(s: &str) -> (r: Option<u64>)
    requires
        elapsed_value(s@) matches Some(v) ==> v <= u64::MAX,
    ensures
        match elapsed_value(s@) {
            Some(v) => r == Some(v as u64),
            None => r is None,
        },
{
    let chars = str_chars(s);
    let parts = split_chars(chars.as_slice(), ':');
    let ghost sp = split_on(s@, ':');
    if parts.len() == 2 {
        assert(parts@[0]@ == sp[0] && parts@[1]@ == sp[1]);
        let minutes = match parse_unsigned_chars(parts[0].as_slice(), u64::MAX) {
            Some(v) => v,
            None => return None,
        };
        let seconds = match parse_unsigned_chars(parts[1].as_slice(), u64::MAX) {
            Some(v) => v,
            None => return None,
        };
        if seconds >= SECONDS_PER_MINUTE {
            return None;
        }
        Some(minutes * SECONDS_PER_MINUTE + seconds)
    } else if parts.len() == 3 {
        assert(parts@[0]@ == sp[0] && parts@[1]@ == sp[1] && parts@[2]@ == sp[2]);
        let hours = match parse_unsigned_chars(parts[0].as_slice(), u64::MAX) {
            Some(v) => v,
            None => return None,
        };
        let minutes = match parse_unsigned_chars(parts[1].as_slice(), u64::MAX) {
            Some(v) => v,
            None => return None,
        };
        let seconds = match parse_unsigned_chars(parts[2].as_slice(), u64::MAX) {
            Some(v) => v,
            None => return None,
        };
        if minutes >= SECONDS_PER_MINUTE || seconds >= SECONDS_PER_MINUTE {
            return None;
        }
        Some(hours * SECONDS_PER_HOUR + minutes * SECONDS_PER_MINUTE + seconds)
    } else {
        None
    }
}

proof fn lemma_split_without_sep(s: Seq<char>, sep: char)
    requires
        !s.contains(sep),
    ensures
        split_on(s, sep) == seq![s],
    decreases s.len(),
{
    if s.len() > 0 {
        assert(!s.drop_first().contains(sep)) by {
            if s.drop_first().contains(sep) {
                let i = choose|i: int| 0 <= i < s.drop_first().len() && s.drop_first()[i] == sep;
                assert(s[i + 1] == sep);
            }
        }
        lemma_split_without_sep(s.drop_first(), sep);
        assert(s[0] != sep) by {
            if s[0] == sep {
                assert(s.contains(sep));
            }
        }
        assert(seq![s[0]] + s.drop_first() =~= s);
        assert(seq![s].update(0, s) =~= seq![s]);
        assert(split_on(s.drop_first(), sep).update(0, seq![s[0]] + s.drop_first()) =~= seq![s]);
    } else {
        assert(s =~= Seq::<char>::empty());
    }
}

proof fn lemma_split_after_piece(a: Seq<char>, t: Seq<char>, sep: char)
    requires
        !a.contains(sep),
    ensures
        split_on(a + seq![sep] + t, sep) == seq![a] + split_on(t, sep),
    decreases a.len(),
{
    lemma_split_on_nonempty(t, sep);
    if a.len() == 0 {
        assert(a + seq![sep] + t =~= seq![sep] + t);
        assert((seq![sep] + t).drop_first() =~= t);
        assert(a =~= Seq::<char>::empty());
    } else {
        let rest = a.drop_first();
        assert(!rest.contains(sep)) by {
            if rest.contains(sep) {
                let i = choose|i: int| 0 <= i < rest.len() && rest[i] == sep;
                assert(a[i + 1] == sep);
            }
        }
        assert(a[0] != sep) by {
            if a[0] == sep {
                assert(a.contains(sep));
            }
        }
        lemma_split_after_piece(rest, t, sep);
        let whole = a + seq![sep] + t;
        assert(whole.drop_first() =~= rest + seq![sep] + t);
        assert(whole[0] == a[0]);
        let tail = seq![rest] + split_on(t, sep);
        assert(seq![a[0]] + rest =~= a);
        assert(tail.update(0, seq![a[0]] + tail[0]) =~= seq![a] + split_on(t, sep));
    }
}

proof fn lemma_numeral_has_no_colon(n: nat)
    ensures
        !decimal(n).contains(':'),
        !decimal2(n).contains(':'),
        decimal2(n).len() > 0,
        all_digits(decimal2(n)),
        n < 100 ==> digits_value(decimal2(n)) == n,
{
    crate::text::lemma_decimal_nonempty(n);
    if decimal(n).contains(':') {
        let i = choose|i: int| 0 <= i < decimal(n).len() && decimal(n)[i] == ':';
        assert(crate::text::is_digit(decimal(n)[i]));
    }
    if n < 10 {
        let d = decimal2(n);
        assert(d == seq!['0', digit_char_of(n)]);
        assert((digit_char_of(n) as u32) == n + 48);
        assert(all_digits(d)) by {
            assert forall|i: int| 0 <= i < d.len() implies crate::text::is_digit(#[trigger] d[i]) by {}
        }
        if d.contains(':') {
            let i = choose|i: int| 0 <= i < d.len() && d[i] == ':';
        }
        assert(d.drop_last() =~= seq!['0']);
        assert(seq!['0'].drop_last() =~= Seq::<char>::empty());
        assert(seq!['0'].last() == '0');
        assert(('0' as u32) == 48);
        assert(digits_value(Seq::<char>::empty()) == 0);
        assert(digits_value(seq!['0']) == digits_value(seq!['0'].drop_last()) * 10 + crate::text::digit_value('0'));
        assert(digits_value(seq!['0']) == 0);
    }
}

spec fn digit_char_of(n: nat) -> char {
    crate::text::digit_char(n)
}

proof fn lemma_numeral_parses(n: nat)
    requires
        n < 100,
    ensures
        crate::text::parse_unsigned(decimal2(n), u64::MAX as nat) == Some(n),
{
    lemma_numeral_has_no_colon(n);
    assert(decimal2(n)[0] != '+') by {
        assert(crate::text::is_digit(decimal2(n)[0]));
    }
}

proof fn lemma_hours_parse(n: nat)
    requires
        n <= u64::MAX,
    ensures
        crate::text::parse_unsigned(decimal(n), u64::MAX as nat) == Some(n),
{
    crate::text::lemma_decimal_nonempty(n);
    assert(decimal(n)[0] != '+') by {
        assert(crate::text::is_digit(decimal(n)[0]));
    }
}

/// The display of elapsed time reads back as the number of seconds shown:
/// parsing what was formatted gives the count, clamped to
/// `MAX_DISPLAY_SECONDS`.
pub proof fn lemma_elapsed_round_trip(total: nat)
    ensures
        elapsed_value(elapsed_text(total)) == Some(
            (if total > MAX_DISPLAY_SECONDS { MAX_DISPLAY_SECONDS as nat } else { total }) as int,
        ),
{
    let t = if total > MAX_DISPLAY_SECONDS { MAX_DISPLAY_SECONDS as nat } else { total };
    if t < SECONDS_PER_HOUR {
        let a = decimal2(t / 60);
        let b = decimal2(t % 60);
        lemma_numeral_has_no_colon(t / 60);
        lemma_numeral_has_no_colon(t % 60);
        lemma_numeral_parses(t / 60);
        lemma_numeral_parses(t % 60);
        lemma_split_after_piece(a, b, ':');
        lemma_split_without_sep(b, ':');
        assert(elapsed_text(total) == a + seq![':'] + b);
        assert(seq![a] + seq![b] =~= seq![a, b]);
    } else {
        let a = decimal(t / 3600);
        let b = decimal2((t % 3600) / 60);
        let c = decimal2(t % 60);
        lemma_numeral_has_no_colon(t / 3600);
        lemma_numeral_has_no_colon((t % 3600) / 60);
        lemma_numeral_has_no_colon(t % 60);
        lemma_hours_parse(t / 3600);
        lemma_numeral_parses((t % 3600) / 60);
        lemma_numeral_parses(t % 60);
        lemma_split_after_piece(b, c, ':');
        lemma_split_without_sep(c, ':');
        lemma_split_after_piece(a, b + seq![':'] + c, ':');
        assert(elapsed_text(total) =~= a + seq![':'] + (b + seq![':'] + c));
        assert(seq![a] + (seq![b] + seq![c]) =~= seq![a, b, c]);
        assert(t == (t / 3600) * 3600 + ((t % 3600) / 60) * 60 + t % 60);
    }
}

} // verus!
