//! The time of day, as posts record it: a date and a time in UTC, written
//! so that texts sort as the moments do.

use vstd::prelude::*;
use crate::ident::{all_digits, is_digit};

verus! {

/// Whether `s` writes a year: four digits, or a sign and four digits or
/// more for a year that four digits cannot hold.
pub open spec fn is_year(s: Seq<char>) -> bool {
    ||| s.len() == 4 && all_digits(s)
    ||| s.len() >= 5 && (s[0] == '+' || s[0] == '-') && all_digits(s.subrange(1, s.len() as int))
}

/// Whether `s` writes the month, the day and the time of day after a year,
/// as in `-03-04T05:06:07`.
pub open spec fn is_day_and_time(s: Seq<char>) -> bool {
    &&& s.len() == 15
    &&& s[0] == '-' && is_digit(s[1]) && is_digit(s[2])
    &&& s[3] == '-' && is_digit(s[4]) && is_digit(s[5])
    &&& s[6] == 'T' && is_digit(s[7]) && is_digit(s[8])
    &&& s[9] == ':' && is_digit(s[10]) && is_digit(s[11])
    &&& s[12] == ':' && is_digit(s[13]) && is_digit(s[14])
}

/// Whether `s` writes a fraction of a second: nothing, or a point and
/// three, six or nine digits.
pub open spec fn is_fraction(s: Seq<char>) -> bool {
    ||| s.len() == 0
    ||| (s.len() == 4 || s.len() == 7 || s.len() == 10) && s[0] == '.' && all_digits(
        s.subrange(1, s.len() as int),
    )
}

/// Whether `s` is made of a year of `year` characters, the day and time, a
/// fraction of `fraction` characters and the offset of UTC.
pub open spec fn is_utc_stamp_of(s: Seq<char>, year: int, fraction: int) -> bool {
    &&& 4 <= year
    &&& 0 <= fraction
    &&& s.len() == year + 15 + fraction + 6
    &&& is_year(s.subrange(0, year))
    &&& is_day_and_time(s.subrange(year, year + 15))
    &&& is_fraction(s.subrange(year + 15, year + 15 + fraction))
    &&& s.subrange(year + 15 + fraction, s.len() as int) == "+00:00"@
}

/// Whether `s` writes a moment in UTC, as in `2021-03-04T05:06:07.250+00:00`.
pub open spec fn is_utc_stamp(s: Seq<char>) -> bool {
    exists|year: int, fraction: int| is_utc_stamp_of(s, year, fraction)
}

/// The present moment as text: the system clock from
/// `std::time::SystemTime::now`, made a `chrono::DateTime<Utc>` by chrono's
/// `From<SystemTime>` and written out by `DateTime::to_rfc3339`. Trusted:
/// the shape of the text, which is the one that chrono writes for a moment
/// in UTC. Nothing is claimed of the moment: it differs from call to call.
#[verifier::external_body]
pub(crate) fn timestamp_now() -> (stamp: String)
    ensures
        is_utc_stamp(stamp@),
{
    chrono::DateTime::<chrono::Utc>::from(std::time::SystemTime::now()).to_rfc3339()
}

} // verus!
