//! Chat timestamps: the `<t:SECONDS:STYLE>` markup that chat clients show as a
//! local date and time.

use vstd::prelude::*;
use fluxer_neptunium::model::time::timestamp::{Timestamp, representations::Iso8601};
use crate::text::{dec_int, parse_i64, push_dec_i64, push_str, starts_with};

verus! {

/// The style letters a timestamp may end with.
pub open spec fn is_style_letter(c: char) -> bool {
    c == 't' || c == 'T' || c == 'd' || c == 'D' || c == 'f' || c == 'F' || c == 'R' || c == 's'
}

/// The Unix time written in timestamp markup `<t:SECONDS:STYLE>`, if the text
/// has that shape and the seconds are a non-negative `i64`.
pub open spec fn timestamp_value(s: Seq<char>) -> Option<i64> {
    if starts_with(s, "<t:"@) && s.len() >= 6 && s.last() == '>' && is_style_letter(s[s.len() - 2])
        && s[s.len() - 3] == ':' {
        match parse_i64(s.subrange(3, s.len() - 3)) {
            Some(t) => if t >= 0 { Some(t) } else { None },
            None => None,
        }
    } else {
        None
    }
}

/// The last Unix second of the year 9999.
pub open spec fn max_plain_unix_time() -> i64 {
    253402300799
}

/// neptunium's `Timestamp::<Iso8601>::parse`, read back as Unix seconds.
/// A result is always the time the markup writes; markup that is malformed or
/// negative gives nothing; any time up to the end of the year 9999 is accepted.
/// Whether later times are accepted depends on how the `time` crate was built,
/// and is left unsaid.
#[verifier::external_body]
pub(crate) fn parse_timestamp(s: &str) -> (r: Option<i64>)
    ensures
        r matches Some(t) ==> timestamp_value(s@) == Some(t),
        timestamp_value(s@) is None ==> r is None,
        timestamp_value(s@) matches Some(t) ==> (t <= max_plain_unix_time() ==> r == Some(t)),
{
    match Timestamp::<Iso8601>::parse(s) {
        Some(t) => Some(fluxer_neptunium::model::time::OffsetDateTime::from(t).unix_timestamp()),
        None => None,
    }
}

/// The markup for a Unix time in the short date-and-time style.
pub open spec fn time_string(t: i64) -> Seq<char> {
    "<t:"@ + dec_int(t as int) + ":s>"@
}

/// Appends the short date-and-time markup for Unix time `t`.
pub fn push_time_string(out: &mut Vec<char>, t: i64)
    ensures
        final(out)@ == old(out)@ + time_string(t),
{
    push_str(out, "<t:");
    push_dec_i64(out, t);
    push_str(out, ":s>");
    assert(final(out)@ =~= old(out)@ + time_string(t));
}

} // verus!
