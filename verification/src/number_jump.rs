//! Typing a row number to jump to it: digits accumulate until a pause.

use std::time::Instant;
use vstd::prelude::*;
use crate::text::{all_digits, digits_value, is_digit, str_chars};
use crate::time::{duration_from_millis, duration_lt, duration_nanos, instant_duration_since, instant_gap, instant_now};

verus! {

pub const NUMBER_JUMP_TIMEOUT_MS: u64 = 1500;

pub const NUMBER_JUMP_MAX_DIGITS: usize = 5;

#[derive(Debug, Clone)]
pub struct NumberJump {
    digits: String,
    last_input: Option<Instant>,
}

impl NumberJump {
    /// The digits typed so far.
    pub closed spec fn digits_spec(&self) -> Seq<char> {
        self.digits@
    }

    /// When the last digit was typed.
    pub closed spec fn last_input_spec(&self) -> Option<Instant> {
        self.last_input
    }

    pub closed spec fn wf(&self) -> bool {
        self.digits@.len() <= NUMBER_JUMP_MAX_DIGITS && all_digits(self.digits@)
    }

    pub fn new() -> (j: Self)
        ensures
            j.wf(),
            j.digits_spec().len() == 0,
            j.last_input_spec() is None,
    {
        NumberJump { digits: String::new(), last_input: None }
    }

    /// Appends a digit; refused (false, no change) for a non-digit or when
    /// the maximum number of digits is reached.
    pub fn push_digit(&mut self, digit: char) -> (accepted: bool)
        requires
            old(self).wf(),
        ensures
            final(self).wf(),
            accepted == (is_digit(digit) && old(self).digits_spec().len() < NUMBER_JUMP_MAX_DIGITS),
            accepted ==> final(self).digits_spec() == old(self).digits_spec().push(digit)
                && final(self).last_input_spec() is Some,
            !accepted ==> *final(self) == *old(self),
    {
        if !('0' <= digit && digit <= '9') {
            return false;
        }
        let count = str_chars(self.digits.as_str()).len();
        if count >= NUMBER_JUMP_MAX_DIGITS {
            return false;
        }
        let mut chars = str_chars(self.digits.as_str());
        chars.push(digit);
        let ghost prev = self.digits@;
        self.digits = crate::text::string_from_chars(chars.as_slice());
        assert forall|i: int| 0 <= i < self.digits@.len() implies is_digit(#[trigger] self.digits@[i]) by {
            if i < prev.len() {
                assert(self.digits@[i] == prev[i]);
            }
        }
        self.last_input = Some(instant_now());
        true
    }

    /// Whether more than the timeout has passed since the last digit;
    /// never, when nothing was typed.
    pub fn is_expired(&self, now: Instant) -> (b: bool)
        ensures
            b == match self.last_input_spec() {
                Some(last) => duration_nanos(instant_gap(now, last)) > NUMBER_JUMP_TIMEOUT_MS
                    * 1_000_000,
                None => false,
            },
    {
        match &self.last_input {
            Some(last) => {
                let waited = instant_duration_since(&now, last);
                let timeout = duration_from_millis(NUMBER_JUMP_TIMEOUT_MS);
                duration_lt(&timeout, &waited)
            },
            None => false,
        }
    }

    /// The number typed so far, 0 when nothing was typed.
    pub fn target_row(&self) -> (n: usize)
        requires
            self.wf(),
        ensures
            n == digits_value(self.digits_spec()),
    {
        let chars = str_chars(self.digits.as_str());
        let mut n: usize = 0;
        let mut i: usize = 0;
        assert(chars@.take(0) =~= Seq::<char>::empty());
        while i < chars.len()
            invariant
                i <= chars.len() <= NUMBER_JUMP_MAX_DIGITS,
                chars@ == self.digits@,
                all_digits(chars@),
                n == digits_value(chars@.take(i as int)),
                n < pow10(i as nat),
            decreases chars.len() - i,
        {
            assert(chars@.take(i + 1).drop_last() =~= chars@.take(i as int));
            assert(is_digit(chars@[i as int]));
            let d = (chars[i] as u32 - 48) as usize;
            assert(pow10((i + 1) as nat) == 10 * pow10(i as nat));
            assert(pow10(5) == 100000) by {
                assert(pow10(0) == 1);
                assert(pow10(1) == 10);
                assert(pow10(2) == 100);
                assert(pow10(3) == 1000);
                assert(pow10(4) == 10000);
            }
            proof {
                lemma_pow10_mono(i as nat + 1, 5);
            }
            n = n * 10 + d;
            i += 1;
        }
        assert(chars@.take(chars.len() as int) =~= chars@);
        n
    }

    /// Whether digits are being collected.
    pub fn is_active(&self) -> (b: bool)
        ensures
            b == (self.digits_spec().len() > 0),
    {
        !self.digits.as_str().is_empty()
    }

    /// The digits typed so far.
    pub fn display(&self) -> (s: &str)
        ensures
            s@ == self.digits_spec(),
    {
        self.digits.as_str()
    }

    /// Forgets the typed digits.
    pub fn clear(&mut self)
        ensures
            final(self).wf(),
            final(self).digits_spec().len() == 0,
            final(self).last_input_spec() is None,
    {
        self.digits = String::new();
        self.last_input = None;
    }
}

pub open spec fn pow10(n: nat) -> nat
    decreases n,
{
    if n == 0 {
        1
    } else {
        10 * pow10((n - 1) as nat)
    }
}

proof fn lemma_pow10_mono(a: nat, b: nat)
    requires
        a <= b,
    ensures
        pow10(a) <= pow10(b),
    decreases b,
{
    if a < b {
        lemma_pow10_mono(a, (b - 1) as nat);
    }
}

} // verus!
