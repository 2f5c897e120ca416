//! The time stamp that each record carries.

use crate::text::{decimal, decimal_u64, glue};
use vstd::prelude::*;
use vstd::string::StringExecFns;

verus! {

/// `SystemTime` of std: a reading of the system clock. Nothing of it is
/// visible here.
#[verifier::external_type_specification]
#[verifier::external_body]
pub struct ExSystemTime(std::time::SystemTime);

/// The last second that a date of RFC 2822 can name, the end of the year
/// 9999, counted from the start of 1970.
pub const LAST_SECOND: u64 = 253_402_300_799;

/// The date and time of RFC 2822, in UTC, for the moment `secs` seconds
/// after the start of 1970, as chrono writes it.
pub uninterp spec fn rfc2822_text(secs: int) -> Seq<char>;

/// `SystemTime::now` of std: the system clock, read once. Nothing is known
/// of what it shows.
#[verifier::external_body]
fn system_now() -> std::time::SystemTime {
    std::time::SystemTime::now()
}

/// `SystemTime::duration_since` of std, taken from `UNIX_EPOCH`, in whole
/// seconds; `None` where `at` lies before that.
#[verifier::external_body]
fn seconds_since_epoch(at: &std::time::SystemTime) -> Option<u64> {
    at.duration_since(std::time::UNIX_EPOCH).ok().map(|since| since.as_secs())
}

/// `DateTime::to_rfc2822` of chrono, on the moment that
/// `DateTime::from_timestamp` makes of `secs` whole seconds. Up to
/// [`LAST_SECOND`] that moment exists and its year has four digits, which is
/// all that chrono asks for. What comes back depends on `secs` alone and is
/// named [`rfc2822_text`].
#[verifier::external_body]
fn rfc2822(secs: i64) -> (text: String)
    requires
        0 <= secs <= LAST_SECOND,
    ensures
        text@ == rfc2822_text(secs as int),
{
    chrono::DateTime::from_timestamp(secs, 0).unwrap().to_rfc2822()
}

/// A time stamp: a date, and the seconds since the start of 1970 behind it.
pub open spec fn stamp_text(date: Seq<char>, secs: nat) -> Seq<char> {
    date + " system time: "@ + decimal(secs)
}

/// The time stamp for the moment `secs` seconds after the start of 1970.
pub open spec fn stamp_at(secs: nat) -> Seq<char> {
    stamp_text(rfc2822_text(secs as int), secs)
}

/// The time stamp made of a date that is already written and the seconds
/// since the start of 1970.
pub fn stamp_with(date: &str, secs: u64) -> (stamp: String)
    ensures
        stamp@ == stamp_text(date@, secs as nat),
{
    let mut stamp = glue(date, " system time: ");
    stamp.append(decimal_u64(secs).as_str());
    stamp
}

/// The time stamp for the moment `secs` seconds after the start of 1970;
/// `None` past the year 9999, for which RFC 2822 has no date.
pub fn time_stamp(secs: u64) -> (stamp: Option<String>)
    ensures
        match stamp {
            Some(stamp) => secs <= LAST_SECOND && stamp@ == stamp_at(secs as nat),
            None => secs > LAST_SECOND,
        },
{
    if secs > LAST_SECOND {
        return None;
    }
    let date = rfc2822(secs as i64);
    Some(stamp_with(date.as_str(), secs))
}

/// The time stamp for now, by one reading of the system clock; `None` where
/// the clock stands before 1970 or past the year 9999.
pub fn time_now() -> (stamp: Option<String>)
    ensures
        stamp matches Some(stamp) ==> exists|secs: nat|
            secs <= LAST_SECOND && stamp@ == #[trigger] stamp_at(secs),
        exists|reading: Option<u64>| stamp.deep_view() == #[trigger] reading_stamp(reading),
{
    let now = system_now();
    let reading = seconds_since_epoch(&now);
    stamp_of_reading(reading)
}

/// The time stamp for a reading of the clock, in whole seconds since the
/// start of 1970: none where the clock gave no such reading, because it
/// stood before 1970, and none past the year 9999.
pub open spec fn reading_stamp(reading: Option<u64>) -> Option<Seq<char>> {
    match reading {
        Some(secs) if secs <= LAST_SECOND => Some(stamp_at(secs as nat)),
        _ => None,
    }
}

/// The time stamp for a reading of the clock that is already taken.
pub fn stamp_of_reading(reading: Option<u64>) -> (stamp: Option<String>)
    ensures
        stamp.deep_view() == reading_stamp(reading),
{
    match reading {
        Some(secs) => time_stamp(secs),
        None => None,
    }
}

} // verus!
