//! Reading the date token of the command line.

use crate::args::GetArgs;
use crate::command::{DateOffsetRepresentation, WeatherCommand};
use vstd::prelude::*;

verus! {

pub open spec fn is_digit(c: char) -> bool {
    '0' <= c <= '9'
}

pub open spec fn digit_value(c: char) -> int {
    c as int - '0' as int
}

/// The value of a non-empty run of decimal digits; `None` when `s` is empty or holds anything
/// but a digit.
pub open spec fn digits_value(s: Seq<char>) -> Option<int>
    decreases s.len(),
{
    if s.len() == 0 || !is_digit(s.last()) {
        None
    } else if s.len() == 1 {
        Some(digit_value(s.last()))
    } else {
        match digits_value(s.drop_last()) {
            Some(v) => Some(v * 10 + digit_value(s.last())),
            None => None,
        }
    }
}

/// The integer that Rust's `str::parse` reads before it checks the range: an optional `+` or
/// `-`, then decimal digits.
pub open spec fn integer_value(s: Seq<char>) -> Option<int> {
    if s.len() > 0 && s[0] == '-' {
        match digits_value(s.drop_first()) {
            Some(v) => Some(-v),
            None => None,
        }
    } else if s.len() > 0 && s[0] == '+' {
        digits_value(s.drop_first())
    } else {
        digits_value(s)
    }
}

/// An `isize` whose negation is an `isize` too.
pub open spec fn negatable(v: int) -> bool {
    -isize::MAX <= v <= isize::MAX
}

pub open spec fn is_letter_h(c: char) -> bool {
    c == 'h' || c == 'H'
}

pub open spec fn is_letter_d(c: char) -> bool {
    c == 'd' || c == 'D'
}

/// The offset that a date token stands for, ignoring ASCII case. A token of more than two
/// characters whose first character is `h` names a time before now: the characters between
/// the first and the last are an integer, negated, and the last character is the unit (`h`
/// for hours, `d` for days). Anything else, a zero amount, or an amount whose negation is no
/// `isize`, stands for now.
pub open spec fn date_offset_of(token: Seq<char>) -> DateOffsetRepresentation {
    if token.len() <= 2 || !is_letter_h(token[0]) {
        DateOffsetRepresentation::Now
    } else {
        match integer_value(token.subrange(1, token.len() - 1)) {
            Some(v) => {
                if v == 0 || !negatable(v) {
                    DateOffsetRepresentation::Now
                } else if is_letter_h(token.last()) {
                    DateOffsetRepresentation::HourOffset((-v) as isize)
                } else if is_letter_d(token.last()) {
                    DateOffsetRepresentation::DayOffset((-v) as isize)
                } else {
                    DateOffsetRepresentation::Now
                }
            },
            None => DateOffsetRepresentation::Now,
        }
    }
}

proof fn lemma_digits_value_grows(s: Seq<char>, k: int)
    requires
        1 <= k <= s.len(),
        digits_value(s) is Some,
    ensures
        digits_value(s.subrange(0, k)) is Some,
        0 <= digits_value(s.subrange(0, k))->0 <= digits_value(s)->0,
    decreases s.len(),
{
    if s.len() > 1 {
        lemma_digits_value_grows(s.drop_last(), if k == s.len() { k - 1 } else { k });
        assert(s.drop_last().subrange(0, k - 1) =~= s.subrange(0, k - 1));
        if k < s.len() {
            assert(s.drop_last().subrange(0, k) =~= s.subrange(0, k));
        } else {
            assert(s.subrange(0, k) =~= s);
        }
    } else {
        assert(s.subrange(0, k) =~= s);
    }
}

/// The run of digits of `s` between `from` and `to`, if it is one and its value is at most
/// `isize::MAX`.
fn digits_in(s: &str, from: usize, to: usize) -> (r: Option<u64>)
    requires
        from <= to <= s@.len(),
    ensures
        r is Some <==> (digits_value(s@.subrange(from as int, to as int)) is Some
            && digits_value(s@.subrange(from as int, to as int))->0 <= isize::MAX),
        r is Some ==> r->0 as int == digits_value(s@.subrange(from as int, to as int))->0,
{
    let ghost t = s@.subrange(from as int, to as int);
    if from == to {
        return None;
    }
    let mut acc: u64 = 0;
    let mut i: usize = from;
    while i < to
        invariant
            from <= i <= to <= s@.len(),
            t == s@.subrange(from as int, to as int),
            i == from ==> acc == 0,
            i > from ==> digits_value(t.subrange(0, i - from)) == Some(acc as int),
            acc <= isize::MAX,
        decreases to - i,
    {
        let c = s.get_char(i);
        assert(t[i - from] == c);
        if !('0' <= c && c <= '9') {
            proof {
                if digits_value(t) is Some {
                    lemma_digits_value_grows(t, i - from + 1);
                    assert(t.subrange(0, i - from + 1).last() == c);
                }
            }
            return None;
        }
        let d: u64 = (c as u32 - '0' as u32) as u64;
        proof {
            let p = t.subrange(0, i - from + 1);
            assert(p.last() == c);
            if i > from {
                assert(p.drop_last() =~= t.subrange(0, i - from));
            }
        }
        if acc > (isize::MAX as u64 - d) / 10 {
            proof {
                let p = t.subrange(0, i - from + 1);
                assert(digits_value(p) == Some(acc * 10 + d));
                if digits_value(t) is Some {
                    lemma_digits_value_grows(t, i - from + 1);
                }
            }
            return None;
        }
        acc = acc * 10 + d;
        i = i + 1;
    }
    assert(t.subrange(0, to - from) =~= t);
    Some(acc)
}

/// The integer between `from` and `to` in `s`, as `str::parse::<isize>` reads it, if both it
/// and its negation are `isize` values.
fn negatable_integer_in(s: &str, from: usize, to: usize) -> (r: Option<isize>)
    requires
        from <= to <= s@.len(),
    ensures
        r is Some <==> (integer_value(s@.subrange(from as int, to as int)) is Some && negatable(
            integer_value(s@.subrange(from as int, to as int))->0,
        )),
        r is Some ==> r->0 as int == integer_value(s@.subrange(from as int, to as int))->0,
{
    let ghost t = s@.subrange(from as int, to as int);
    if from < to {
        let c = s.get_char(from);
        assert(t[0] == c);
        if c == '-' || c == '+' {
            assert(t.drop_first() =~= s@.subrange(from + 1, to as int));
            let magnitude = digits_in(s, from + 1, to);
            match magnitude {
                Some(m) => {
                    if c == '-' {
                        return Some(-(m as isize));
                    } else {
                        return Some(m as isize);
                    }
                },
                None => {
                    return None;
                },
            }
        }
    }
    match digits_in(s, from, to) {
        Some(m) => Some(m as isize),
        None => None,
    }
}

/// Reads a date token. Never fails: a token that does not fit the grammar stands for now.
pub fn parse_date_arg(date_str: &str) -> (r: DateOffsetRepresentation)
    ensures
        r == date_offset_of(date_str@),
        date_str@.len() <= 2 ==> r == DateOffsetRepresentation::Now,
{
    let n = date_str.unicode_len();
    if n <= 2 {
        return DateOffsetRepresentation::Now;
    }
    let first = date_str.get_char(0);
    if !(first == 'h' || first == 'H') {
        return DateOffsetRepresentation::Now;
    }
    match negatable_integer_in(date_str, 1, n - 1) {
        Some(v) => {
            if v == 0 {
                return DateOffsetRepresentation::Now;
            }
            let amount: isize = -v;
            let last = date_str.get_char(n - 1);
            if last == 'h' || last == 'H' {
                DateOffsetRepresentation::HourOffset(amount)
            } else if last == 'd' || last == 'D' {
                DateOffsetRepresentation::DayOffset(amount)
            } else {
                DateOffsetRepresentation::Now
            }
        },
        None => DateOffsetRepresentation::Now,
    }
}

/// Every token of at most two characters stands for now.
pub proof fn lemma_short_token_is_now(token: Seq<char>)
    requires
        token.len() <= 2,
    ensures
        date_offset_of(token) == DateOffsetRepresentation::Now,
{
}

/// Turns the arguments of the `get` action into a command: a missing date token means now.
pub fn parse_get_action(ga: GetArgs) -> (r: WeatherCommand)
    ensures
        r.location == ga.location,
        r.date == match ga.date {
            Some(d) => date_offset_of(d@),
            None => DateOffsetRepresentation::Now,
        },
{
    let date = match &ga.date {
        Some(d) => parse_date_arg(d.as_str()),
        None => DateOffsetRepresentation::Now,
    };
    WeatherCommand::new(ga.location, date)
}

} // verus!
