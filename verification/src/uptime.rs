//! The text of an uptime: days, hours, minutes and seconds, each at least two
//! characters wide.

use crate::clock::{remainder, toward_zero};
use vstd::prelude::*;
use vstd::string::StringExecFns;

verus! {

/// The character of a decimal digit.
pub open spec fn digit(d: int) -> char {
    if d == 0 {
        '0'
    } else if d == 1 {
        '1'
    } else if d == 2 {
        '2'
    } else if d == 3 {
        '3'
    } else if d == 4 {
        '4'
    } else if d == 5 {
        '5'
    } else if d == 6 {
        '6'
    } else if d == 7 {
        '7'
    } else if d == 8 {
        '8'
    } else {
        '9'
    }
}

/// A natural number in decimal, without leading zeros.
pub open spec fn decimal(n: nat) -> Seq<char>
    decreases n,
{
    if n < 10 {
        seq![digit(n as int)]
    } else {
        decimal(n / 10).push(digit((n % 10) as int))
    }
}

/// An integer in decimal, filled with a zero where a single digit would stand
/// alone. A negative number has its sign in front and no zero.
pub open spec fn two_wide(n: int) -> Seq<char> {
    if n < 0 {
        seq!['-'] + decimal((-n) as nat)
    } else if n < 10 {
        seq!['0'] + decimal(n as nat)
    } else {
        decimal(n as nat)
    }
}

/// The uptime text for a number of elapsed seconds: the whole days, a space,
/// then the hours of the day, the minutes of the hour and the seconds of the
/// minute with colons between them. Every division rounds toward zero.
pub open spec fn uptime_text(seconds: int) -> Seq<char> {
    let days = toward_zero(seconds, 86_400);
    let hours = remainder(toward_zero(seconds, 3_600), 24);
    let minutes = remainder(toward_zero(seconds, 60), 60);
    let secs = remainder(seconds, 60);
    two_wide(days) + seq![' '] + two_wide(hours) + seq![':'] + two_wide(minutes) + seq![':']
        + two_wide(secs)
}

fn digit_text(d: u64) -> (text: &'static str)
    requires
        d < 10,
    ensures
        text@ == seq![digit(d as int)],
{
    proof {
        reveal_strlit("0");
        reveal_strlit("1");
        reveal_strlit("2");
        reveal_strlit("3");
        reveal_strlit("4");
        reveal_strlit("5");
        reveal_strlit("6");
        reveal_strlit("7");
        reveal_strlit("8");
        reveal_strlit("9");
    }
    let text = if d == 0 {
        "0"
    } else if d == 1 {
        "1"
    } else if d == 2 {
        "2"
    } else if d == 3 {
        "3"
    } else if d == 4 {
        "4"
    } else if d == 5 {
        "5"
    } else if d == 6 {
        "6"
    } else if d == 7 {
        "7"
    } else if d == 8 {
        "8"
    } else {
        "9"
    };
    assert(text@ =~= seq![digit(d as int)]);
    text
}

fn append_decimal(out: &mut String, n: u64)
    ensures
        final(out)@ == old(out)@ + decimal(n as nat),
    decreases n,
{
    if n >= 10 {
        append_decimal(out, n / 10);
    }
    out.append(digit_text(n % 10));
    assert(final(out)@ =~= old(out)@ + decimal(n as nat));
}

fn append_two_wide(out: &mut String, n: i64)
    ensures
        final(out)@ == old(out)@ + two_wide(n as int),
{
    if n < 0 {
        proof {
            reveal_strlit("-");
        }
        out.append("-");
        let magnitude: u64 = ((-(n + 1)) as u64) + 1;
        append_decimal(out, magnitude);
        assert(final(out)@ =~= old(out)@ + two_wide(n as int));
    } else {
        if n < 10 {
            proof {
                reveal_strlit("0");
            }
            out.append("0");
        }
        append_decimal(out, n as u64);
        assert(final(out)@ =~= old(out)@ + two_wide(n as int));
    }
}

/// The uptime text for `elapsed_seconds`.
pub fn format_uptime(elapsed_seconds: i64) -> (text: String)
    ensures
        text@ == uptime_text(elapsed_seconds as int),
{
    let days = elapsed_seconds / 86_400;
    let hours = (elapsed_seconds / 3_600) % 24;
    let minutes = (elapsed_seconds / 60) % 60;
    let secs = elapsed_seconds % 60;
    proof {
        reveal_strlit(" ");
        reveal_strlit(":");
    }
    let mut text = String::new();
    append_two_wide(&mut text, days);
    text.append(" ");
    append_two_wide(&mut text, hours);
    text.append(":");
    append_two_wide(&mut text, minutes);
    text.append(":");
    append_two_wide(&mut text, secs);
    assert(text@ =~= uptime_text(elapsed_seconds as int));
    text
}

} // verus!
