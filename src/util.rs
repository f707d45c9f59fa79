use vstd::prelude::*;
use vstd::string::StringExecFns;

use crate::model::Interval;

verus! {

/// One minute, in microseconds.
pub const MINUTE: i64 = 60_000_000;

/// One hour, in microseconds.
pub const HOUR: i64 = 3_600_000_000;

/// One day, in microseconds.
pub const DAY: i64 = 86_400_000_000;

/// The character of the decimal digit `d`.
pub open spec fn digit_char(d: nat) -> char {
    seq!['0', '1', '2', '3', '4', '5', '6', '7', '8', '9'][d as int]
}

/// `n` written in decimal, without leading zeros.
pub open spec fn decimal(n: nat) -> Seq<char>
    decreases n,
{
    if n < 10 {
        seq![digit_char(n)]
    } else {
        decimal(n / 10).push(digit_char(n % 10))
    }
}

/// `n` written in decimal on at least two digits, padded with a zero.
pub open spec fn two_digits(n: nat) -> Seq<char> {
    if n < 10 {
        seq!['0', digit_char(n)]
    } else {
        decimal(n)
    }
}

/// The absolute value of `n`.
pub open spec fn abs(n: int) -> nat {
    if n < 0 {
        (-n) as nat
    } else {
        n as nat
    }
}

fn digit_str(d: u64) -> (r: &'static str)
    requires
        d < 10,
    ensures
        r@ == seq![digit_char(d as nat)],
{
    proof {
        reveal_strlit("0");
        reveal_strlit("1");
        reveal_strlit("2");
        reveal_strlit("3");
        reveal_strlit("4");
        reveal_strlit("5");
        reveal_strlit("6");
        reveal_strlit("7");
        reveal_strlit("8");
        reveal_strlit("9");
    }
    match d {
        0 => "0",
        1 => "1",
        2 => "2",
        3 => "3",
        4 => "4",
        5 => "5",
        6 => "6",
        7 => "7",
        8 => "8",
        _ => "9",
    }
}

/// Appends `n` in decimal to `s`.
pub fn push_decimal(s: &mut String, n: u64)
    ensures
        final(s)@ == old(s)@ + decimal(n as nat),
    decreases n,
{
    if n >= 10 {
        push_decimal(s, n / 10);
    }
    s.append(digit_str(n % 10));
    assert(n < 10 ==> decimal(n as nat) == seq![digit_char(n as nat)]);
}

/// `n` followed by the unit: `one` when `n` is one, `many` otherwise.
pub open spec fn counted(n: nat, one: Seq<char>, many: Seq<char>) -> Seq<char> {
    decimal(n) + if n == 1 {
        one
    } else {
        many
    }
}

/// How an interval of `us` microseconds is shown: the finest of its whole
/// days, hours-in-the-day and minutes-in-the-hour that is not zero, counted
/// in its unit; nothing for an interval of less than a minute, or negative.
pub open spec fn interval_text(us: int) -> Seq<char> {
    if us <= 0 {
        Seq::empty()
    } else if (us % HOUR as int) / MINUTE as int > 0 {
        counted(((us % HOUR as int) / MINUTE as int) as nat, " minute"@, " minutes"@)
    } else if (us % DAY as int) / HOUR as int > 0 {
        counted(((us % DAY as int) / HOUR as int) as nat, " hour "@, " hours "@)
    } else if us / DAY as int > 0 {
        counted((us / DAY as int) as nat, " day "@, " days "@)
    } else {
        Seq::empty()
    }
}

/// How a timezone offset of `us` microseconds is shown: whole hours, a
/// colon, and the minutes in the hour on two digits, from the offset's
/// magnitude; a minus sign goes before a negative offset of an hour or more.
pub open spec fn timezone_text(us: int) -> Seq<char> {
    let h = abs(us) / HOUR as nat;
    let m = (abs(us) % HOUR as nat) / MINUTE as nat;
    (if us < 0 && h > 0 {
        seq!['-']
    } else {
        Seq::empty()
    }) + decimal(h) + seq![':'] + two_digits(m)
}

/// Shows an interval (see `interval_text`).
pub fn pginterval_to_string(interval: &Interval) -> (r: String)
    ensures
        r@ == interval_text(interval.microseconds as int),
{
    let us = interval.microseconds;
    let mut res = String::new();
    if us <= 0 {
        return res;
    }
    let mins = us % HOUR / MINUTE;
    let hours = us % DAY / HOUR;
    let days = us / DAY;
    if mins > 0 {
        push_decimal(&mut res, mins as u64);
        res.append(if mins == 1 { " minute" } else { " minutes" });
    } else if hours > 0 {
        push_decimal(&mut res, hours as u64);
        res.append(if hours == 1 { " hour " } else { " hours " });
    } else if days > 0 {
        push_decimal(&mut res, days as u64);
        res.append(if days == 1 { " day " } else { " days " });
    }
    res
}

/// Shows a timezone offset (see `timezone_text`).
pub fn format_timezone(interval: &Interval) -> (r: String)
    ensures
        r@ == timezone_text(interval.microseconds as int),
{
    let us = interval.microseconds;
    let a: u64 = if us < 0 {
        ((-(us + 1)) as u64) + 1
    } else {
        us as u64
    };
    let h = a / (HOUR as u64);
    let m = a % (HOUR as u64) / (MINUTE as u64);
    let mut res = String::new();
    proof {
        reveal_strlit("-");
        reveal_strlit(":");
        reveal_strlit("0");
    }
    if us < 0 && h > 0 {
        res.append("-");
    }
    push_decimal(&mut res, h);
    res.append(":");
    if m < 10 {
        res.append("0");
    }
    push_decimal(&mut res, m);
    assert(m < 10 ==> decimal(m as nat) == seq![digit_char(m as nat)]);
    res
}

} // verus!
