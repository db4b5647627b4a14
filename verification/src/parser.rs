//! Spans of time written as text: `1h5m40s100ms`, or a bare number.

use crate::clock::{duration_from_millis, duration_nanos};
use std::time::Duration;
use vstd::prelude::*;

verus! {

pub open spec fn is_digit(c: char) -> bool {
    '0' <= c && c <= '9'
}

pub open spec fn is_letter(c: char) -> bool {
    ('a' <= c && c <= 'z') || ('A' <= c && c <= 'Z')
}

/// Where the run of digits that begins at `from` ends.
pub open spec fn digits_end(s: Seq<char>, from: int) -> int
    decreases s.len() - from,
{
    if 0 <= from < s.len() && is_digit(s[from]) {
        digits_end(s, from + 1)
    } else {
        from
    }
}

/// Where the run of letters that begins at `from` ends.
pub open spec fn letters_end(s: Seq<char>, from: int) -> int
    decreases s.len() - from,
{
    if 0 <= from < s.len() && is_letter(s[from]) {
        letters_end(s, from + 1)
    } else {
        from
    }
}

/// The number that a run of digits writes in base ten.
pub open spec fn digits_value(digits: Seq<char>) -> nat
    decreases digits.len(),
{
    if digits.len() == 0 {
        0
    } else {
        digits_value(digits.drop_last()) * 10 + (digits.last() as nat - '0' as nat) as nat
    }
}

/// The milliseconds in one unit of time, by the unit's suffix.
pub open spec fn unit_millis(unit: Seq<char>) -> Option<nat> {
    if unit == seq!['m', 's'] {
        Some(1)
    } else if unit == seq!['s'] {
        Some(1_000)
    } else if unit == seq!['m'] {
        Some(60_000)
    } else if unit == seq!['h'] {
        Some(3_600_000)
    } else {
        None
    }
}

/// The factor that the letters from `start` to `end` put on the number
/// before them. Where there are none, the number counts once if the text
/// ends there, and has no value if it does not.
pub open spec fn operator_millis(s: Seq<char>, start: int, end: int) -> Option<nat> {
    if end > start {
        unit_millis(s.subrange(start, end))
    } else if start >= s.len() {
        Some(1)
    } else {
        None
    }
}

/// The milliseconds that the text from `from` on adds up to. The text is a
/// chain of numbers, each followed by its unit; a last number may stand
/// without a unit and then counts milliseconds. Anything else has no value.
pub open spec fn millis_from(s: Seq<char>, from: int) -> Option<nat>
    decreases
            (if from <= s.len() {
                s.len() - from
            } else {
                0
            }),
{
    let mid = digits_end(s, from);
    let end = letters_end(s, mid);
    if from < 0 {
        None
    } else if from >= s.len() {
        Some(0)
    } else if mid <= from {
        None
    } else if end <= mid {
        if mid >= s.len() {
            Some(digits_value(s.subrange(from, mid)))
        } else {
            None
        }
    } else {
        match unit_millis(s.subrange(mid, end)) {
            Some(unit) => match millis_from(s, end) {
                Some(rest) => Some(digits_value(s.subrange(from, mid)) * unit + rest),
                None => None,
            },
            None => None,
        }
    }
}

/// The milliseconds that a text stands for, where it has a value and the
/// value fits in 64 bits.
pub open spec fn parsed_millis(s: Seq<char>) -> Option<u64> {
    match millis_from(s, 0) {
        Some(millis) => if millis <= u64::MAX {
            Some(millis as u64)
        } else {
            None
        },
        None => None,
    }
}

pub proof fn lemma_digits_end_bounds(s: Seq<char>, from: int)
    requires
        0 <= from <= s.len(),
    ensures
        from <= digits_end(s, from) <= s.len(),
        forall|i: int| from <= i < digits_end(s, from) ==> is_digit(#[trigger] s[i]),
    decreases s.len() - from,
{
    if from < s.len() && is_digit(s[from]) {
        lemma_digits_end_bounds(s, from + 1);
    }
}

pub proof fn lemma_letters_end_bounds(s: Seq<char>, from: int)
    requires
        0 <= from <= s.len(),
    ensures
        from <= letters_end(s, from) <= s.len(),
        forall|i: int| from <= i < letters_end(s, from) ==> is_letter(#[trigger] s[i]),
    decreases s.len() - from,
{
    if from < s.len() && is_letter(s[from]) {
        lemma_letters_end_bounds(s, from + 1);
    }
}

/// `millis_from` at a place inside the text, one number and its unit at a
/// time: the value is the number times its factor plus the value of what
/// follows, and so is never less than the number or than what follows.
pub proof fn lemma_millis_from_unfold(s: Seq<char>, from: int)
    requires
        0 <= from < s.len(),
    ensures
        ({
            let mid = digits_end(s, from);
            let end = letters_end(s, mid);
            let value = digits_value(s.subrange(from, mid));
            &&& from <= mid <= end <= s.len()
            &&& millis_from(s, from) == if mid <= from {
                None
            } else {
                match (operator_millis(s, mid, end), millis_from(s, end)) {
                    (Some(factor), Some(rest)) => Some(value * factor + rest),
                    _ => None,
                }
            }
            &&& operator_millis(s, mid, end) matches Some(factor) ==> factor >= 1 && value
                * factor >= value
        }),
{
    let mid = digits_end(s, from);
    let end = letters_end(s, mid);
    let value = digits_value(s.subrange(from, mid));
    lemma_digits_end_bounds(s, from);
    lemma_letters_end_bounds(s, mid);
    if let Some(factor) = operator_millis(s, mid, end) {
        assert(value * factor >= value) by (nonlinear_arith)
            requires
                factor >= 1,
        ;
    }
    if mid > from && end <= mid && mid >= s.len() {
        assert(value * 1 + 0 == value);
    }
}

/// A text of digits and nothing else counts milliseconds: its value is the
/// number it writes.
pub proof fn lemma_digits_alone_count_millis(s: Seq<char>)
    requires
        s.len() > 0,
        forall|i: int| 0 <= i < s.len() ==> is_digit(#[trigger] s[i]),
    ensures
        millis_from(s, 0) == Some(digits_value(s)),
{
    lemma_digits_run_to_the_end(s, 0);
    assert(s.subrange(0, s.len() as int) =~= s);
}

/// Where only digits follow, the run of digits ends with the text.
proof fn lemma_digits_run_to_the_end(s: Seq<char>, from: int)
    requires
        0 <= from <= s.len(),
        forall|i: int| from <= i < s.len() ==> is_digit(#[trigger] s[i]),
    ensures
        digits_end(s, from) == s.len(),
    decreases s.len() - from,
{
    if from < s.len() {
        lemma_digits_run_to_the_end(s, from + 1);
    }
}

/// A simple parser of spans of time.
pub struct TimeParser;

impl TimeParser {
    /// Reads a span such as `1h5m40s100ms`. Returns `None` where the text is
    /// not a chain of numbers and units, or adds up to more milliseconds
    /// than 64 bits hold.
    pub fn parse(time_str: &str) -> (parsed: Option<Duration>)
        ensures
            parsed.is_some() == parsed_millis(time_str@).is_some(),
            parsed matches Some(d) ==> duration_nanos(d) == parsed_millis(time_str@).unwrap()
                * 1_000_000,
    {
        match Self::parse_millis(time_str) {
            Some(millis) => Some(duration_from_millis(millis)),
            None => None,
        }
    }

    /// Reads a span as `parse` does and returns it in milliseconds.
    pub fn parse_millis(time_str: &str) -> (parsed: Option<u64>)
        ensures
            parsed == parsed_millis(time_str@),
    {
        let len = time_str.unicode_len();
        let mut current: usize = 0;
        let mut result: u64 = 0;
        let ghost s = time_str@;

        // always scan number+operator
        while current < len
            invariant
                s == time_str@,
                len == s.len(),
                current <= len,
                millis_from(s, 0) == match millis_from(s, current as int) {
                    Some(rest) => Some((result + rest) as nat),
                    None => None,
                },
            decreases len - current,
        {
            let ghost from = current as int;
            proof {
                lemma_millis_from_unfold(s, from);
            }
            let num = match Self::scan_num(time_str, current, &mut current) {
                Some(num) => num,
                None => {
                    return None;
                },
            };
            let op = match Self::scan_operator(time_str, current, &mut current) {
                Some(op) => op,
                None => {
                    return None;
                },
            };
            let term = match num.checked_mul(op) {
                Some(term) => term,
                None => {
                    return None;
                },
            };
            result = match result.checked_add(term) {
                Some(sum) => sum,
                None => {
                    return None;
                },
            };
        }
        Some(result)
    }

    /// Picks the factor of a unit of time.
    fn unit_factor(time_str: &str, start: usize, end: usize) -> (factor: Option<u64>)
        requires
            start < end <= time_str@.len(),
        ensures
            factor matches Some(f) ==> unit_millis(time_str@.subrange(start as int, end as int))
                == Some(f as nat) && f >= 1,
            factor is None ==> unit_millis(time_str@.subrange(start as int, end as int))
                is None,
    {
        let ghost unit = time_str@.subrange(start as int, end as int);
        let first = time_str.get_char(start);
        if end - start == 1 {
            assert(unit =~= seq![first]);
            assert(seq!['m', 's'].len() == 2);
            assert(seq!['s'][0] == 's' && seq!['m'][0] == 'm' && seq!['h'][0] == 'h');
            if first == 's' {
                Some(1_000)
            } else if first == 'm' {
                Some(60_000)
            } else if first == 'h' {
                Some(3_600_000)
            } else {
                None
            }
        } else if end - start == 2 {
            let second = time_str.get_char(start + 1);
            assert(unit =~= seq![first, second]);
            assert(seq!['s'].len() == 1 && seq!['m'].len() == 1 && seq!['h'].len() == 1);
            assert(seq!['m', 's'][0] == 'm' && seq!['m', 's'][1] == 's');
            if first == 'm' && second == 's' {
                Some(1)
            } else {
                None
            }
        } else {
            assert(unit.len() > 2);
            assert(seq!['s'].len() == 1 && seq!['m'].len() == 1 && seq!['h'].len() == 1);
            assert(seq!['m', 's'].len() == 2);
            None
        }
    }

    /// Steps over the letters at `current` and reads them as a unit. A
    /// number at the very end needs no unit: it counts once.
    fn scan_operator(time_str: &str, start: usize, current: &mut usize) -> (factor: Option<u64>)
        requires
            start == *old(current),
            start <= time_str@.len(),
        ensures
            *final(current) == letters_end(time_str@, start as int),
            start <= *final(current) <= time_str@.len(),
            factor matches Some(f) ==> f >= 1 && operator_millis(
                time_str@,
                start as int,
                *final(current) as int,
            ) == Some(f as nat),
            factor is None ==> operator_millis(time_str@, start as int, *final(current) as int)
                is None,
    {
        let len = time_str.unicode_len();
        while *current < len && Self::is_alpha(time_str.get_char(*current))
            invariant
                len == time_str@.len(),
                start <= *current <= len,
                letters_end(time_str@, start as int) == letters_end(time_str@, *current as int),
            decreases len - *current,
        {
            *current += 1;
        }
        // no operator? return 1, but only if
        // current is end of string too
        if start == *current && *current >= len {
            Some(1)
        } else if start == *current {
            None
        } else {
            Self::unit_factor(time_str, start, *current)
        }
    }

    /// Steps over the digits at `current` and reads them as a number.
    /// `None` where there is no digit, or the number does not fit in 64 bits.
    fn scan_num(time_str: &str, start: usize, current: &mut usize) -> (number: Option<u64>)
        requires
            start == *old(current),
            start <= time_str@.len(),
        ensures
            *final(current) == digits_end(time_str@, start as int),
            start <= *final(current) <= time_str@.len(),
            number matches Some(n) ==> *final(current) > start && n == digits_value(
                time_str@.subrange(start as int, *final(current) as int),
            ),
            number is None ==> *final(current) == start || digits_value(
                time_str@.subrange(start as int, *final(current) as int),
            ) > u64::MAX,
    {
        let len = time_str.unicode_len();
        let mut number: Option<u64> = Some(0);
        let ghost s = time_str@;
        while *current < len && Self::is_numeric(time_str.get_char(*current))
            invariant
                s == time_str@,
                len == s.len(),
                start <= *current <= len,
                digits_end(s, start as int) == digits_end(s, *current as int),
                number matches Some(n) ==> n == digits_value(
                    s.subrange(start as int, *current as int),
                ),
                number is None ==> digits_value(s.subrange(start as int, *current as int))
                    > u64::MAX,
            decreases len - *current,
        {
            let digit = Self::digit_of(time_str.get_char(*current));
            proof {
                let longer = s.subrange(start as int, *current + 1);
                assert(longer.drop_last() =~= s.subrange(start as int, *current as int));
                assert(longer.last() == s[*current as int]);
            }
            number = match number {
                Some(n) => match n.checked_mul(10) {
                    Some(tens) => tens.checked_add(digit),
                    None => None,
                },
                None => None,
            };
            *current += 1;
        }
        if start == *current {
            None
        } else {
            number
        }
    }

    /// The value of one digit.
    fn digit_of(c: char) -> (digit: u64)
        requires
            is_digit(c),
        ensures
            digit == c as nat - '0' as nat,
            digit <= 9,
    {
        (c as u32 - '0' as u32) as u64
    }

    fn is_numeric(c: char) -> (numeric: bool)
        ensures
            numeric == is_digit(c),
    {
        '0' <= c && c <= '9'
    }

    fn is_alpha(c: char) -> (alpha: bool)
        ensures
            alpha == is_letter(c),
    {
        ('a' <= c && c <= 'z') || ('A' <= c && c <= 'Z')
    }
}

} // verus!
