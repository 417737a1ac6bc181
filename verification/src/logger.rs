//! Timestamps for the bot's log lines.

use vstd::prelude::*;
use crate::clock::UtcNow;
use crate::text::{decimal, lemma_decimal_len, lemma_zero_pad_len, push_i64, push_zero_padded, signed_decimal, zero_pad};

verus! {

/// A UTC date and time of day as a calendar shows it.
#[derive(Clone, Copy, Debug)]
pub struct CalendarTime {
    pub year: i32,
    pub month: u32,
    pub day: u32,
    pub hour: u32,
    pub minute: u32,
    pub second: u32,
}

/// The log stamp `[YYYY-MM-DD hh:mm:ss]`, each field zero-padded on the left
/// to its width (a negative year keeps its sign inside the four places).
pub open spec fn timestamp_text(t: CalendarTime) -> Seq<char> {
    "["@ + zero_pad(signed_decimal(t.year as int), 4) + "-"@ + zero_pad(decimal(t.month as nat), 2)
        + "-"@ + zero_pad(decimal(t.day as nat), 2) + " "@ + zero_pad(decimal(t.hour as nat), 2)
        + ":"@ + zero_pad(decimal(t.minute as nat), 2) + ":"@ + zero_pad(decimal(t.second as nat), 2)
        + "]"@
}

fn push_padded(out: &mut String, n: i64, width: usize)
    ensures
        final(out)@ == old(out)@ + zero_pad(signed_decimal(n as int), width as nat),
{
    let mut digits = String::new();
    push_i64(&mut digits, n);
    assert(digits@ == signed_decimal(n as int));
    push_zero_padded(out, digits.as_str(), width);
}

/// Renders `t` as a log stamp.
pub fn format_timestamp(t: CalendarTime) -> (s: String)
    ensures
        s@ == timestamp_text(t),
{
    let mut s = String::new();
    s.append("[");
    push_padded(&mut s, t.year as i64, 4);
    s.append("-");
    push_padded(&mut s, t.month as i64, 2);
    s.append("-");
    push_padded(&mut s, t.day as i64, 2);
    s.append(" ");
    push_padded(&mut s, t.hour as i64, 2);
    s.append(":");
    push_padded(&mut s, t.minute as i64, 2);
    s.append(":");
    push_padded(&mut s, t.second as i64, 2);
    s.append("]");
    s
}

/// The log stamp of the current UTC time (the calendar fields of one
/// consistent clock reading, unchanged), or `None` when the clock cannot be
/// read as a UTC time (it reads before 1970 or beyond chrono's range).
pub fn create_timestamp() -> (s: Option<String>)
    ensures
        s matches Some(text) ==> exists|t: CalendarTime| #[trigger] timestamp_text(t) == text@ && 1 <= t.month
            <= 12 && 1 <= t.day <= 31 && t.hour < 24 && t.minute < 60 && t.second < 60,
        s matches Some(text) ==> exists|r: UtcNow|
            #![trigger r.consistent()]
            r.consistent() && text@ == timestamp_text(r.calendar),
{
    let reading = crate::clock::utc_now()?;
    let t = reading.calendar;
    let s = format_timestamp(t);
    assert(timestamp_text(t) == s@);
    Some(s)
}

/// For years 0 to 9999 and in-range calendar fields, a log stamp always has
/// the fixed width of `[YYYY-MM-DD hh:mm:ss]`, 21 characters.
pub proof fn lemma_timestamp_width(t: CalendarTime)
    requires
        0 <= t.year <= 9999,
        1 <= t.month <= 12,
        1 <= t.day <= 31,
        t.hour < 24,
        t.minute < 60,
        t.second < 60,
    ensures
        timestamp_text(t).len() == 21,
{
    lemma_decimal_len(t.year as nat);
    lemma_decimal_len(t.month as nat);
    lemma_decimal_len(t.day as nat);
    lemma_decimal_len(t.hour as nat);
    lemma_decimal_len(t.minute as nat);
    lemma_decimal_len(t.second as nat);
    lemma_zero_pad_len(decimal(t.year as nat), 4);
    lemma_zero_pad_len(decimal(t.month as nat), 2);
    lemma_zero_pad_len(decimal(t.day as nat), 2);
    lemma_zero_pad_len(decimal(t.hour as nat), 2);
    lemma_zero_pad_len(decimal(t.minute as nat), 2);
    lemma_zero_pad_len(decimal(t.second as nat), 2);
    reveal_strlit("[");
    reveal_strlit("-");
    reveal_strlit(" ");
    reveal_strlit(":");
    reveal_strlit("]");
}

} // verus!
