use vstd::prelude::*;
use crate::binary64::{thousandths_tenths, thousandths_tenths_spec};
use crate::text::{decimal, digit_char, chars_of, string_of_range, push_char, push_decimal, digit};

verus! {

/// A count of tenths rendered with one decimal place, such as `3.2`.
pub open spec fn one_decimal(tenths: nat) -> Seq<char> {
    decimal(tenths / 10) + seq!['.', digit_char(tenths % 10)]
}

/// A millisecond duration rendered as seconds with one decimal, such as `3.2s`.
pub open spec fn secs_label(ms: nat) -> Seq<char> {
    one_decimal(thousandths_tenths_spec(ms)).push('s')
}

/// Appends `n / 1000` written with one decimal place, as double arithmetic
/// writes it, to `s`.
pub fn push_thousandths(s: &mut String, n: u64)
    ensures
        final(s)@ == old(s)@ + one_decimal(thousandths_tenths_spec(n as nat)),
{
    let tenths: u64 = thousandths_tenths(n);
    push_decimal(s, tenths / 10);
    push_char(s, '.');
    push_char(s, digit(tenths % 10));
}

/// Formats a duration in milliseconds as seconds with one decimal, e.g. `3.2s`.
pub fn format_secs(ms: u64) -> (r: String)
    ensures
        r@ == secs_label(ms as nat),
{
    let mut s = String::new();
    push_thousandths(&mut s, ms);
    push_char(&mut s, 's');
    s
}

/// The recency label for a timestamp that lies `delta` seconds in the past.
pub open spec fn recency_label(delta: nat) -> Seq<char> {
    if delta < 60 {
        "just now"@
    } else if delta < 3600 {
        decimal(delta / 60) + "m ago"@
    } else if delta < 86400 {
        decimal(delta / 3600) + "h ago"@
    } else if delta < 86400 * 7 {
        decimal(delta / 86400) + "d ago"@
    } else if delta < 86400 * 30 {
        decimal(delta / (86400 * 7)) + "w ago"@
    } else {
        decimal(delta / (86400 * 30)) + "mo ago"@
    }
}

/// Seconds from `secs` up to `now`, or zero when `secs` is not before `now`.
pub open spec fn elapsed_secs(now: nat, secs: nat) -> nat {
    if now > secs { (now - secs) as nat } else { 0 }
}

/// The compact recency label of the unix timestamp `secs`, seen at time `now`.
pub fn relative_time_at(now: u64, secs: u64) -> (r: String)
    ensures
        r@ == recency_label(elapsed_secs(now as nat, secs as nat)),
{
    let delta: u64 = if now > secs { now - secs } else { 0 };
    if delta < 60 {
        String::from_str("just now")
    } else {
        let (amount, unit): (u64, &str) = if delta < 3600 {
            (delta / 60, "m ago")
        } else if delta < 86_400 {
            (delta / 3600, "h ago")
        } else if delta < 86_400 * 7 {
            (delta / 86_400, "d ago")
        } else if delta < 86_400 * 30 {
            (delta / (86_400 * 7), "w ago")
        } else {
            (delta / (86_400 * 30), "mo ago")
        };
        let mut s = String::new();
        push_decimal(&mut s, amount);
        s.append(unit);
        assert(s@ == decimal(amount as nat) + unit@);
        s
    }
}

/// `value` when it has at most `max` characters; else its first `max`
/// characters and a note of how many were left out.
pub open spec fn capped_head(value: Seq<char>, max: nat) -> Seq<char> {
    if value.len() <= max {
        value
    } else {
        value.take(max as int) + "\n\u{2026} ("@ + decimal((value.len() - max) as nat) + " more chars)"@
    }
}

/// `value` when it has at most `max` characters; else a note of how many
/// leading characters were left out and its last `max` characters.
pub open spec fn capped_tail(value: Seq<char>, max: nat) -> Seq<char> {
    if value.len() <= max {
        value
    } else {
        "\u{2026} ("@ + decimal((value.len() - max) as nat) + " earlier chars)\n"@
            + value.skip(value.len() - max)
    }
}

/// Return the first `max` characters and note how many characters were omitted.
pub fn cap_head(value: &str, max: usize) -> (r: String)
    ensures
        r@ == capped_head(value@, max as nat),
{
    let chars = chars_of(value);
    let count = chars.len();
    if count <= max {
        String::from_str(value)
    } else {
        let mut s = string_of_range(&chars, 0, max);
        s.append("\n\u{2026} (");
        push_decimal(&mut s, (count - max) as u64);
        s.append(" more chars)");
        assert(chars@.subrange(0, max as int) == value@.take(max as int));
        s
    }
}

/// Return the last `max` characters and note how many earlier characters were omitted.
pub fn cap_tail(value: &str, max: usize) -> (r: String)
    ensures
        r@ == capped_tail(value@, max as nat),
{
    let chars = chars_of(value);
    let count = chars.len();
    if count <= max {
        String::from_str(value)
    } else {
        let mut s = String::from_str("\u{2026} (");
        push_decimal(&mut s, (count - max) as u64);
        s.append(" earlier chars)\n");
        let tail = string_of_range(&chars, count - max, count);
        s.append(tail.as_str());
        assert(chars@.subrange((count - max) as int, count as int) == value@.skip(count - max));
        s
    }
}

} // verus!

verus! {

/// Compact, timezone-free recency label for a unix-epoch timestamp (seconds),
/// measured against the wall clock.
pub fn relative_time(secs: u64) -> (r: String)
    ensures
        exists|now: u64| r@ == recency_label(#[trigger] elapsed_secs(now as nat, secs as nat)),
{
    let now = crate::clock::unix_now_secs();
    relative_time_at(now, secs)
}

} // verus!
