//! Names of the recorded files, from the local wall-clock time at file open.

use vstd::prelude::*;
use vstd::string::*;
use chrono::{Datelike, Timelike};

verus! {

/// A local wall-clock time, to the second.
#[derive(Clone, Copy, Debug, PartialEq, Eq)]
pub struct Timestamp {
    pub year: i32,
    pub month: u32,
    pub day: u32,
    pub hour: u32,
    pub minute: u32,
    pub second: u32,
}

/// Gregorian leap year.
pub open spec fn is_leap_year(y: int) -> bool {
    (y % 4 == 0 && y % 100 != 0) || y % 400 == 0
}

/// Number of days of month `m` in year `y`.
pub open spec fn days_in_month(y: int, m: int) -> int {
    if m == 2 {
        if is_leap_year(y) { 29 } else { 28 }
    } else if m == 4 || m == 6 || m == 9 || m == 11 {
        30
    } else {
        31
    }
}

impl Timestamp {
    /// Each field within its documented range.
    pub open spec fn in_range(&self) -> bool {
        &&& 1 <= self.month <= 12
        &&& 1 <= self.day <= 31
        &&& self.hour < 24
        &&& self.minute < 60
        &&& self.second < 60
    }

    /// A real calendar date and time, with a four-digit year.
    pub open spec fn is_valid(&self) -> bool {
        &&& self.in_range()
        &&& 1 <= self.year <= 9999
        &&& self.day <= days_in_month(self.year as int, self.month as int)
    }
}

/// The decimal digit `d` (0 to 9) as a character.
pub open spec fn digit(d: int) -> char {
    if d == 0 { '0' } else if d == 1 { '1' } else if d == 2 { '2' } else if d == 3 { '3' }
    else if d == 4 { '4' } else if d == 5 { '5' } else if d == 6 { '6' } else if d == 7 { '7' }
    else if d == 8 { '8' } else { '9' }
}

/// The last two decimal digits of `n`, zero-padded.
pub open spec fn two_digits(n: int) -> Seq<char> {
    seq![digit((n / 10) % 10), digit(n % 10)]
}

/// The last four decimal digits of `n`, zero-padded.
pub open spec fn four_digits(n: int) -> Seq<char> {
    seq![digit((n / 1000) % 10), digit((n / 100) % 10), digit((n / 10) % 10), digit(n % 10)]
}

/// The text of `t` in the form `YYYY-MM-DD_HH-MM-SS`.
pub open spec fn stamp_of(t: Timestamp) -> Seq<char> {
    four_digits(t.year as int) + seq!['-'] + two_digits(t.month as int) + seq!['-']
        + two_digits(t.day as int) + seq!['_'] + two_digits(t.hour as int) + seq!['-']
        + two_digits(t.minute as int) + seq!['-'] + two_digits(t.second as int)
}

/// `t` names a day of the proleptic Gregorian calendar and a time of day.
pub open spec fn date_time_exists(t: Timestamp) -> bool {
    &&& t.in_range()
    &&& t.day <= days_in_month(t.year as int, t.month as int)
}

/// Last second of the year 9999, in seconds since the Unix epoch.
pub const LATEST_UNIX_SECONDS: u64 = 253402300799;

/// Relies on std::time::SystemTime::duration_since, applied to
/// SystemTime::now and the Unix epoch: whole seconds since the epoch, `None`
/// for a clock set before it. Nothing is promised of the value.
#[verifier::external_body]
fn unix_seconds() -> (r: Option<u64>) {
    std::time::SystemTime::now().duration_since(std::time::UNIX_EPOCH).ok().map(|d| d.as_secs())
}

/// Relies on chrono::DateTime::<Utc>::from_timestamp (`Some` for a number of
/// seconds in its range, which holds all of 1970 to 9999), DateTime::with_timezone
/// to chrono::Local (a FixedOffset, under one day, so the local date lies within
/// a day of the UTC one), and chrono's Datelike / Timelike accessors, which
/// give an existing date and a time of day.
#[verifier::external_body]
fn local_time_at(secs: u64) -> (r: Option<Timestamp>)
    requires
        secs <= LATEST_UNIX_SECONDS,
    ensures
        r is Some,
        r matches Some(t) ==> date_time_exists(t) && 1969 <= t.year <= 10000,
{
    let utc = chrono::DateTime::<chrono::Utc>::from_timestamp(secs as i64, 0)?;
    let local = utc.with_timezone(&chrono::Local);
    Some(Timestamp {
        year: local.year(),
        month: local.month(),
        day: local.day(),
        hour: local.hour(),
        minute: local.minute(),
        second: local.second(),
    })
}

/// Relies on chrono::NaiveDate::from_ymd_opt, NaiveDate::and_hms_opt and
/// NaiveDateTime::format with `%Y-%m-%d_%H-%M-%S`: a date and time that do not
/// exist are refused; a valid one with a four-digit year is written with
/// zero-padded fields.
#[verifier::external_body]
fn format_stamp(t: &Timestamp) -> (r: Option<String>)
    ensures
        r is Some ==> date_time_exists(*t),
        date_time_exists(*t) && 0 <= t.year <= 10000 ==> r is Some,
        t.is_valid() ==> r is Some,
        r matches Some(s) ==> (t.is_valid() ==> s@ == stamp_of(*t)),
{
    let date = chrono::NaiveDate::from_ymd_opt(t.year, t.month, t.day)?;
    let time = date.and_hms_opt(t.hour, t.minute, t.second)?;
    Some(time.format("%Y-%m-%d_%H-%M-%S").to_string())
}

/// The file name for a recording opened at `t`: the timestamp text and `.wav`.
/// `None` when `t` is not a date and time that exists.
pub fn file_name(t: &Timestamp) -> (r: Option<String>)
    ensures
        t.is_valid() ==> (r matches Some(s) && s@ == stamp_of(*t) + ".wav"@),
        date_time_exists(*t) && 0 <= t.year <= 10000 ==> r is Some,
        !date_time_exists(*t) ==> r is None,
{
    proof { reveal_strlit(".wav"); }
    match format_stamp(t) {
        Some(s) => {
            let mut s = s;
            s.append(".wav");
            Some(s)
        },
        None => None,
    }
}

/// The file name for a recording opened `secs` seconds after the Unix epoch,
/// from the local wall-clock time then. `None` exactly for instants after the
/// year 9999.
pub fn file_name_at(secs: u64) -> (r: Option<(Timestamp, String)>)
    ensures
        (r is None) <==> secs > LATEST_UNIX_SECONDS,
        r matches Some((t, s)) ==> date_time_exists(t) && (t.is_valid() ==> s@ == stamp_of(t) + ".wav"@),
{
    if secs > LATEST_UNIX_SECONDS {
        return None;
    }
    match local_time_at(secs) {
        Some(t) => match file_name(&t) {
            Some(s) => Some((t, s)),
            None => None,
        },
        None => None,
    }
}

/// The file name for a recording opened now, from the local wall-clock time.
/// `None` when the clock reads before 1970 or after 9999.
pub fn next_file_name() -> (r: Option<(Timestamp, String)>)
    ensures
        r matches Some((t, s)) ==> date_time_exists(t) && (t.is_valid() ==> s@ == stamp_of(t) + ".wav"@),
{
    match unix_seconds() {
        Some(secs) => file_name_at(secs),
        None => None,
    }
}

} // verus!
