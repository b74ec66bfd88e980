//! Text helpers: decimal rendering and human-readable durations.

use std::time::Duration;
use vstd::prelude::*;
use vstd::string::StringExecFns;

verus! {

/// The character of one decimal digit, `0 <= d <= 9`.
pub open spec fn digit_char(d: nat) -> char {
    if d == 0 {
        '0'
    } else if d == 1 {
        '1'
    } else if d == 2 {
        '2'
    } else if d == 3 {
        '3'
    } else if d == 4 {
        '4'
    } else if d == 5 {
        '5'
    } else if d == 6 {
        '6'
    } else if d == 7 {
        '7'
    } else if d == 8 {
        '8'
    } else {
        '9'
    }
}

/// The decimal numeral of `n`, most significant digit first, without
/// leading zeros.
pub open spec fn decimal(n: nat) -> Seq<char>
    decreases n,
{
    if n < 10 {
        seq![digit_char(n)]
    } else {
        decimal(n / 10).push(digit_char(n % 10))
    }
}

/// The text of a span of `seconds` whole seconds: `"<h>h <m>m <s>s"` from
/// one hour up, `"<m>m <s>s"` from one minute up, `"<s>s"` below that.
pub open spec fn duration_text(seconds: nat) -> Seq<char> {
    let minutes = seconds / 60;
    let hours = minutes / 60;
    if hours > 0 {
        decimal(hours) + seq!['h', ' '] + decimal(minutes % 60) + seq!['m', ' '] + decimal(
            seconds % 60,
        ) + seq!['s']
    } else if minutes > 0 {
        decimal(minutes) + seq!['m', ' '] + decimal(seconds % 60) + seq!['s']
    } else {
        decimal(seconds) + seq!['s']
    }
}

/// The number of whole seconds that a `Duration` spans.
pub uninterp spec fn whole_seconds(duration: Duration) -> u64;

/// `Duration::as_secs` yields the whole seconds of the span, dropping the
/// sub-second part.
pub assume_specification[ Duration::as_secs ](duration: &Duration) -> (seconds: u64)
    ensures
        seconds == whole_seconds(*duration),
;

fn digit_str(d: u64) -> (s: &'static str)
    requires
        d < 10,
    ensures
        s@ == seq![digit_char(d as nat)],
{
    proof {
        reveal_strlit("0");
        reveal_strlit("1");
        reveal_strlit("2");
        reveal_strlit("3");
        reveal_strlit("4");
        reveal_strlit("5");
        reveal_strlit("6");
        reveal_strlit("7");
        reveal_strlit("8");
        reveal_strlit("9");
    }
    let s = if d == 0 {
        "0"
    } else if d == 1 {
        "1"
    } else if d == 2 {
        "2"
    } else if d == 3 {
        "3"
    } else if d == 4 {
        "4"
    } else if d == 5 {
        "5"
    } else if d == 6 {
        "6"
    } else if d == 7 {
        "7"
    } else if d == 8 {
        "8"
    } else {
        "9"
    };
    assert(s@ =~= seq![digit_char(d as nat)]);
    s
}

/// Appends the decimal numeral of `n` to `out`.
pub fn push_decimal(out: &mut String, n: u64)
    ensures
        final(out)@ == old(out)@ + decimal(n as nat),
    decreases n,
{
    if n >= 10 {
        push_decimal(out, n / 10);
    }
    out.append(digit_str(n % 10));
    assert(out@ =~= old(out)@ + decimal(n as nat));
}

/// Renders a span of whole seconds as hours, minutes and seconds, leaving
/// out the leading units that are zero.
pub fn format_seconds(seconds: u64) -> (text: String)
    ensures
        text@ == duration_text(seconds as nat),
{
    let minutes: u64 = seconds / 60;
    let hours: u64 = minutes / 60;
    let mut text = String::new();
    proof {
        reveal_strlit("h ");
        reveal_strlit("m ");
        reveal_strlit("s");
    }
    if hours > 0 {
        push_decimal(&mut text, hours);
        text.append("h ");
        push_decimal(&mut text, minutes % 60);
        text.append("m ");
    } else if minutes > 0 {
        push_decimal(&mut text, minutes);
        text.append("m ");
    }
    push_decimal(&mut text, seconds % 60);
    text.append("s");
    assert(text@ =~= duration_text(seconds as nat));
    text
}

/// Renders a duration as hours, minutes and seconds; the sub-second part
/// is dropped.
pub fn format_duration(duration: Duration) -> (text: String)
    ensures
        text@ == duration_text(whole_seconds(duration) as nat),
{
    format_seconds(duration.as_secs())
}

} // verus!
