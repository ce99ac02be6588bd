//! Clocks.

use crate::json::opt_text;
use vstd::prelude::*;

verus! {

/// `std::time::Instant`, a reading of a clock that never goes back.
#[verifier::external_type_specification]
#[verifier::external_body]
pub struct ExInstant(std::time::Instant);

/// `Instant::now`: the current reading. Nothing is claimed of it.
pub assume_specification[ std::time::Instant::now ]() -> std::time::Instant;

/// `Instant::elapsed`, in nanoseconds: the time since a reading. It depends on
/// when it is asked for, so nothing is claimed of it.
#[verifier::external_body]
fn nanos_since(origin: &std::time::Instant) -> u64 {
    origin.elapsed().as_nanos() as u64
}

/// `std::time::SystemTime`, a reading of a clock that can be set.
#[verifier::external_type_specification]
#[verifier::external_body]
pub struct ExSystemTime(std::time::SystemTime);

/// `SystemTime::now`: the current reading. Nothing is claimed of it.
pub assume_specification[ std::time::SystemTime::now ]() -> std::time::SystemTime;

/// `SystemTime::duration_since` with the start of 1970, in whole seconds and the
/// nanoseconds beyond them, of which there are less than a second's; nothing where
/// the reading is from before that. A reading has no contents to speak of, so
/// nothing is claimed of how long it is.
#[verifier::external_body]
fn since_1970(time: &std::time::SystemTime) -> (res: Option<(u64, u32)>)
    ensures
        res matches Some(t) ==> t.1 < 1_000_000_000,
{
    match time.duration_since(std::time::UNIX_EPOCH) {
        Ok(d) => Some((d.as_secs(), d.subsec_nanos())),
        Err(_) => None,
    }
}

/// Whether every character is a decimal digit.
pub open spec fn all_digits(s: Seq<char>) -> bool {
    forall|i: int| 0 <= i < s.len() ==> '0' <= #[trigger] s[i] <= '9'
}

/// Whether two digits stand at a place, and what they make is in a range.
pub open spec fn two_digits(s: Seq<char>, at: int, least: int, most: int) -> bool {
    &&& all_digits(s.subrange(at, at + 2))
    &&& least <= 10 * (s[at] as int - '0' as int) + (s[at + 1] as int - '0' as int) <= most
}

/// Whether a text is a year: four digits, or a sign and at least that many.
pub open spec fn is_year(s: Seq<char>) -> bool {
    ||| s.len() == 4 && all_digits(s)
    ||| s.len() > 5 && s[0] == '+' && all_digits(s.skip(1))
    ||| s.len() > 4 && s[0] == '-' && all_digits(s.skip(1))
}

/// Whether a text is a day of a year and a time of that day, as in
/// `-12-19T16:39:57`.
pub open spec fn is_day_and_time(s: Seq<char>) -> bool {
    &&& s.len() == 15
    &&& s[0] == '-' && two_digits(s, 1, 1, 12)
    &&& s[3] == '-' && two_digits(s, 4, 1, 31)
    &&& s[6] == 'T' && two_digits(s, 7, 0, 23)
    &&& s[9] == ':' && two_digits(s, 10, 0, 59)
    &&& s[12] == ':' && two_digits(s, 13, 0, 59)
}

/// Whether a text is a part of a second: nothing, or a dot and three, six or nine
/// digits.
pub open spec fn is_fraction(s: Seq<char>) -> bool {
    s.len() == 0 || {
        &&& s.len() == 4 || s.len() == 7 || s.len() == 10
        &&& s[0] == '.'
        &&& all_digits(s.skip(1))
    }
}

/// Whether a text is a time in UTC in RFC 3339 format.
pub open spec fn is_utc_rfc3339(s: Seq<char>) -> bool {
    exists|year: Seq<char>, day_and_time: Seq<char>, fraction: Seq<char>|
        #![trigger is_year(year), is_day_and_time(day_and_time), is_fraction(fraction)]
        is_year(year) && is_day_and_time(day_and_time) && is_fraction(fraction) && s == year + day_and_time
            + fraction + "+00:00"@
}

/// What `chrono::DateTime::to_rfc3339` writes for the moment so many seconds and
/// nanoseconds after the start of 1970; nothing where `chrono::DateTime::from_timestamp`
/// has no date for it.
pub uninterp spec fn rfc3339_at(secs: i64, nanos: u32) -> Option<Seq<char>>;

/// The last second of the year 9999, counted from the start of 1970.
pub const LAST_FOUR_DIGIT_SECOND: i64 = 253_402_300_799;

/// `chrono::DateTime::from_timestamp`, written by `DateTime::to_rfc3339`: the text
/// depends on the seconds and the nanoseconds alone, and is a time in UTC in RFC
/// 3339 format, its offset written out, with as many digits of the second as are
/// needed. There is one for every second from 1970 up to the year 9999.
#[verifier::external_body]
fn utc_rfc3339(secs: i64, nanos: u32) -> (res: Option<String>)
    requires
        nanos < 1_000_000_000,
    ensures
        opt_text(res) == rfc3339_at(secs, nanos),
        res matches Some(s) ==> is_utc_rfc3339(s@),
        0 <= secs <= LAST_FOUR_DIGIT_SECOND ==> res is Some,
{
    match chrono::DateTime::<chrono::Utc>::from_timestamp(secs, nanos) {
        Some(t) => Some(t.to_rfc3339()),
        None => None,
    }
}

/// Milliseconds since 1970 as they are kept, of a time in seconds and nanoseconds:
/// one before 1970 counts as the start of it.
pub open spec fn millis_of(time: Option<(u64, u32)>) -> i64 {
    match time {
        None => 0,
        Some(t) => #[verifier::truncate] ((t.0 * 1000 + t.1 / 1_000_000) as i64),
    }
}

/// Milliseconds since 1970 as they are kept, of a time in seconds and nanoseconds:
/// one before 1970 counts as the start of it.
pub fn kept_millis(time: Option<(u64, u32)>) -> (res: i64)
    ensures
        res == millis_of(time),
{
    match time {
        Some((secs, nanos)) => {
            let millis: u128 = secs as u128 * 1000 + (nanos / 1_000_000) as u128;
            #[verifier::truncate] (millis as i64)
        },
        None => 0,
    }
}

/// The current time in milliseconds since 1970.
pub fn now_ms() -> i64 {
    kept_millis(since_1970(&std::time::SystemTime::now()))
}

/// The moment that a time in seconds and nanoseconds since 1970 is written as: the
/// start of 1970 for one from before it, or that has no date.
pub open spec fn written_moment(time: Option<(u64, u32)>) -> (i64, u32) {
    match time {
        Some(t) => if t.0 <= i64::MAX && t.1 < 1_000_000_000 && rfc3339_at(t.0 as i64, t.1) is Some {
            (t.0 as i64, t.1)
        } else {
            (0, 0)
        },
        None => (0, 0),
    }
}

/// A time in seconds and nanoseconds since 1970, written as in
/// `1996-12-19T16:39:57+00:00`.
pub fn timestamp_of(time: Option<(u64, u32)>) -> (res: String)
    ensures
        Some(res@) == rfc3339_at(written_moment(time).0, written_moment(time).1),
        is_utc_rfc3339(res@),
{
    if let Some((secs, nanos)) = time {
        if secs <= i64::MAX as u64 && nanos < 1_000_000_000 {
            if let Some(text) = utc_rfc3339(secs as i64, nanos) {
                return text;
            }
        }
    }
    utc_rfc3339(0, 0).unwrap()
}

/// The current time, written as in `1996-12-19T16:39:57+00:00`.
pub fn utc_timestamp() -> (res: String)
    ensures
        is_utc_rfc3339(res@),
{
    timestamp_of(since_1970(&std::time::SystemTime::now()))
}

/// A clock that counts nanoseconds from when it was started.
pub struct Stopwatch {
    origin: std::time::Instant,
}

impl Stopwatch {
    /// A clock that starts now.
    pub fn start() -> Stopwatch {
        Stopwatch { origin: std::time::Instant::now() }
    }

    /// The nanoseconds since the start.
    pub fn read(&self) -> u64 {
        nanos_since(&self.origin)
    }
}

/// The nanoseconds in a second.
pub const SECOND: u64 = 1_000_000_000;

/// The whole seconds from `earlier` to `now`; none where `earlier` is not before `now`.
pub open spec fn seconds_between(earlier: u64, now: u64) -> int {
    if now >= earlier {
        (now - earlier) / SECOND as int
    } else {
        0
    }
}

/// The whole seconds from `earlier` to `now`.
pub fn whole_seconds(earlier: u64, now: u64) -> (res: u64)
    ensures
        res == seconds_between(earlier, now),
{
    if now >= earlier {
        (now - earlier) / SECOND
    } else {
        0
    }
}

/// The milliseconds that are kept are those of the time, a thousand for each second
/// and one for each million nanoseconds, as long as they can be counted.
pub proof fn milliseconds_are_counted(secs: u64, nanos: u32)
    requires
        secs * 1000 + nanos / 1_000_000 <= i64::MAX,
    ensures
        millis_of(Some((secs, nanos))) == secs * 1000 + nanos / 1_000_000,
        millis_of(None) == 0,
{
}

/// A time is written as the moment that it is, if that has a date, and as the start
/// of 1970 otherwise.
pub proof fn a_time_is_written_as_it_is(secs: i64, nanos: u32)
    requires
        0 <= secs,
        nanos < 1_000_000_000,
    ensures
        rfc3339_at(secs, nanos) is Some ==> written_moment(Some((secs as u64, nanos))) == (secs, nanos),
        rfc3339_at(secs, nanos) is None ==> written_moment(Some((secs as u64, nanos))) == (0i64, 0u32),
        written_moment(None) == (0i64, 0u32),
{
}

/// The whole seconds between two moments leave less than a second out.
pub proof fn whole_seconds_leave_less_than_one_out(earlier: u64, now: u64)
    ensures
        earlier <= now ==> seconds_between(earlier, now) * 1_000_000_000 <= now - earlier < (seconds_between(
            earlier,
            now,
        ) + 1) * 1_000_000_000,
        now < earlier ==> seconds_between(earlier, now) == 0,
{
}

} // verus!
