//! Instants of time as plain integers, with the calendar work done by `chrono`.

use chrono::{DateTime, FixedOffset};
use vstd::prelude::*;

verus! {

/// Largest distance from the Unix epoch, in seconds, that a [`Timestamp`] may have
/// (about 31 000 years either way).
pub const MAX_UNIX_SECONDS: i64 = 1_000_000_000_000;

/// Pattern of the time of day in a notification: hours, minutes, seconds.
pub const TIME_OF_DAY_PATTERN: &'static str = "%H:%M:%S";

/// Pattern of the calendar date in a notification: day, month, year.
pub const CALENDAR_DATE_PATTERN: &'static str = "%d/%m/%Y";

/// What `chrono` reads from an RFC 3339 text: `None` where it rejects the text, else
/// the seconds since the Unix epoch, the nanoseconds within that second and the
/// offset from UTC in seconds.
pub uninterp spec fn rfc3339_reading(text: Seq<char>) -> Option<(i64, u32, i32)>;

/// The whole seconds that `chrono` counts from the earlier instant to the later one,
/// each given by its seconds since the Unix epoch and its nanoseconds.
pub uninterp spec fn whole_seconds_between(
    later_secs: i64,
    later_nanos: u32,
    earlier_secs: i64,
    earlier_nanos: u32,
) -> i64;

/// The text that `chrono` writes for an instant, seen at an offset from UTC, under a
/// `strftime` pattern.
pub uninterp spec fn formatted_text(
    secs: i64,
    nanos: u32,
    offset: i32,
    pattern: Seq<char>,
) -> Seq<char>;

/// The RFC 3339 text that `chrono` writes for an instant seen at an offset from UTC.
pub uninterp spec fn rfc3339_text(secs: i64, nanos: u32, offset: i32) -> Seq<char>;

/// The nanoseconds that lie between two instants, each given by its seconds since the
/// Unix epoch and its nanoseconds within that second.
pub open spec fn nanoseconds_between(
    later_secs: int,
    later_nanos: int,
    earlier_secs: int,
    earlier_nanos: int,
) -> int {
    (later_secs - earlier_secs) * 1_000_000_000 + (later_nanos - earlier_nanos)
}

/// The whole seconds of a span of nanoseconds; the fraction is dropped, towards zero.
pub open spec fn whole_seconds(nanoseconds: int) -> int {
    if nanoseconds >= 0 {
        nanoseconds / 1_000_000_000
    } else {
        -((-nanoseconds) / 1_000_000_000)
    }
}

/// The character of a decimal digit.
pub open spec fn digit(d: int) -> char {
    ('0' as int + d) as char
}

/// A number below a hundred in two decimal digits.
pub open spec fn two_digits(n: int) -> Seq<char> {
    seq![digit(n / 10), digit(n % 10)]
}

/// The second of the day, counted from midnight, that an instant falls on at an
/// offset from UTC.
pub open spec fn second_of_day(secs: int, offset: int) -> int {
    (secs + offset) % 86_400
}

/// A second of the day as hours, minutes and seconds, two digits each, with colons
/// between them.
pub open spec fn clock_text(second_of_day: int) -> Seq<char> {
    two_digits(second_of_day / 3_600) + seq![':'] + two_digits(second_of_day / 60 % 60) + seq![
        ':',
    ] + two_digits(second_of_day % 60)
}

/// Whether three integers describe an instant that a [`Timestamp`] can hold.
///
/// The nanoseconds may reach into a second thousand million only to mark a leap
/// second, which is attached to the last second of a minute.
pub open spec fn valid_parts(secs: i64, nanos: u32, offset: i32) -> bool {
    &&& -MAX_UNIX_SECONDS <= secs <= MAX_UNIX_SECONDS
    &&& (nanos < 1_000_000_000 || (nanos < 2_000_000_000 && secs as int % 60 == 59))
    &&& -86_400 < offset < 86_400
}

/// An instant, together with the offset from UTC under which it is shown.
#[derive(Clone, Copy, Debug, PartialEq, Eq)]
pub struct Timestamp {
    secs: i64,
    nanos: u32,
    offset: i32,
}

impl Timestamp {
    /// Seconds since the Unix epoch.
    pub closed spec fn secs(self) -> i64 {
        self.secs
    }

    /// Nanoseconds since the last second boundary.
    pub closed spec fn nanos(self) -> u32 {
        self.nanos
    }

    /// Seconds to add to UTC to get the local time.
    pub closed spec fn offset(self) -> i32 {
        self.offset
    }

    /// The timestamp that has the given parts.
    pub closed spec fn from_parts(secs: i64, nanos: u32, offset: i32) -> Timestamp {
        Timestamp { secs, nanos, offset }
    }

    /// Whether the timestamp lies within a leap second.
    pub open spec fn in_leap_second(self) -> bool {
        self.nanos() >= 1_000_000_000
    }

    #[verifier::type_invariant]
    spec fn well_formed(self) -> bool {
        valid_parts(self.secs, self.nanos, self.offset)
    }

    /// A timestamp is made of its three parts and of nothing else.
    pub proof fn lemma_parts(self)
        ensures
            self == Self::from_parts(self.secs(), self.nanos(), self.offset()),
            forall|secs: i64, nanos: u32, offset: i32|
                {
                    let t = #[trigger] Self::from_parts(secs, nanos, offset);
                    t.secs() == secs && t.nanos() == nanos && t.offset() == offset
                },
    {
    }

    /// Builds a timestamp from its three parts, or `None` where they describe no
    /// instant that the type holds.
    pub fn new(
        unix_seconds: i64,
        subsec_nanos: u32,
        utc_offset_seconds: i32,
    ) -> (res: Option<Timestamp>)
        ensures
            res == if valid_parts(unix_seconds, subsec_nanos, utc_offset_seconds) {
                Some(Self::from_parts(unix_seconds, subsec_nanos, utc_offset_seconds))
            } else {
                None
            },
            res matches Some(t) ==> t.secs() == unix_seconds && t.nanos() == subsec_nanos
                && t.offset() == utc_offset_seconds,
    {
        let in_range = -MAX_UNIX_SECONDS <= unix_seconds && unix_seconds <= MAX_UNIX_SECONDS;
        let plain = subsec_nanos < 1_000_000_000;
        let rest: i64 = unix_seconds % 60;
        let leap = subsec_nanos < 2_000_000_000 && (rest == 59 || rest == -1);
        let offset_ok = -86_400 < utc_offset_seconds && utc_offset_seconds < 86_400;
        if in_range && (plain || leap) && offset_ok {
            Some(Timestamp { secs: unix_seconds, nanos: subsec_nanos, offset: utc_offset_seconds })
        } else {
            None
        }
    }

    /// Seconds since the Unix epoch.
    pub fn unix_seconds(&self) -> (res: i64)
        ensures
            res == self.secs(),
            valid_parts(self.secs(), self.nanos(), self.offset()),
    {
        proof {
            use_type_invariant(self);
        }
        self.secs
    }

    /// Nanoseconds since the last second boundary.
    pub fn subsec_nanos(&self) -> (res: u32)
        ensures
            res == self.nanos(),
            valid_parts(self.secs(), self.nanos(), self.offset()),
    {
        proof {
            use_type_invariant(self);
        }
        self.nanos
    }

    /// Seconds to add to UTC to get the local time.
    pub fn utc_offset_seconds(&self) -> (res: i32)
        ensures
            res == self.offset(),
            valid_parts(self.secs(), self.nanos(), self.offset()),
    {
        proof {
            use_type_invariant(self);
        }
        self.offset
    }
}

/// Calls `chrono::DateTime::parse_from_rfc3339` and takes the result apart.
///
/// Trusted: the parts are those that `chrono` reads from the text, and the same
/// text always reads the same.
#[verifier::external_body]
fn read_rfc3339(text: &str) -> (res: Option<(i64, u32, i32)>)
    ensures
        res == rfc3339_reading(text@),
{
    match DateTime::parse_from_rfc3339(text) {
        Ok(at) => Some(
            (at.timestamp(), at.timestamp_subsec_nanos(), at.offset().local_minus_utc()),
        ),
        Err(_) => None,
    }
}

/// Calls `chrono::DateTime::signed_duration_since` on two instants and takes the
/// whole seconds of the difference.
///
/// Trusted: the result is `chrono`'s count for these two instants. Where neither
/// lies within a leap second, that count is the difference of the two in
/// nanoseconds, cut to whole seconds towards zero. Both instants are within the
/// range that `DateTime::from_timestamp` accepts, so neither `unwrap` fails.
#[verifier::external_body]
fn seconds_between(later: &Timestamp, earlier: &Timestamp) -> (res: i64)
    requires
        valid_parts(later.secs, later.nanos, later.offset),
        valid_parts(earlier.secs, earlier.nanos, earlier.offset),
    ensures
        res == whole_seconds_between(later.secs, later.nanos, earlier.secs, earlier.nanos),
        later.nanos < 1_000_000_000 && earlier.nanos < 1_000_000_000 ==> res == whole_seconds(
            nanoseconds_between(
                later.secs as int,
                later.nanos as int,
                earlier.secs as int,
                earlier.nanos as int,
            ),
        ),
{
    let end = DateTime::from_timestamp(later.secs, later.nanos).unwrap();
    let start = DateTime::from_timestamp(earlier.secs, earlier.nanos).unwrap();
    end.signed_duration_since(start).num_seconds()
}

/// Calls `chrono::DateTime::format` on an instant seen at its offset.
///
/// Trusted: the result is the text that `chrono` writes under the pattern. Under
/// the pattern of the time of day, and outside a leap second, that text is the
/// local second of the day as hours, minutes and seconds of two digits each. The
/// instant and the offset are within the ranges that `DateTime::from_timestamp` and
/// `FixedOffset::east_opt` accept, and both patterns are well formed, so nothing
/// here fails.
#[verifier::external_body]
fn format_with(at: &Timestamp, pattern: &str) -> (res: String)
    requires
        valid_parts(at.secs, at.nanos, at.offset),
        pattern@ == TIME_OF_DAY_PATTERN@ || pattern@ == CALENDAR_DATE_PATTERN@,
    ensures
        res@ == formatted_text(at.secs, at.nanos, at.offset, pattern@),
        pattern@ == TIME_OF_DAY_PATTERN@ && at.nanos < 1_000_000_000 ==> res@ == clock_text(
            second_of_day(at.secs as int, at.offset as int),
        ),
{
    let zone = FixedOffset::east_opt(at.offset).unwrap();
    let local = DateTime::from_timestamp(at.secs, at.nanos).unwrap().with_timezone(&zone);
    local.format(pattern).to_string()
}

/// Calls `chrono::DateTime::to_rfc3339` on an instant seen at its offset.
///
/// Trusted: the result is the text that `chrono` writes for the instant.
#[verifier::external_body]
fn write_rfc3339(at: &Timestamp) -> (res: String)
    requires
        valid_parts(at.secs, at.nanos, at.offset),
    ensures
        res@ == rfc3339_text(at.secs, at.nanos, at.offset),
{
    let zone = FixedOffset::east_opt(at.offset).unwrap();
    let local = DateTime::from_timestamp(at.secs, at.nanos).unwrap().with_timezone(&zone);
    local.to_rfc3339()
}

impl Timestamp {
    /// The instant that an RFC 3339 text names, read as [`rfc3339_reading`] says, or
    /// `None` where the text is rejected or the instant is out of range.
    pub fn parse_rfc3339(text: &str) -> (res: Option<Timestamp>)
        ensures
            res == Self::parsed(text@),
    {
        match read_rfc3339(text) {
            Some((secs, nanos, offset)) => Timestamp::new(secs, nanos, offset),
            None => None,
        }
    }

    /// The timestamp that a text stands for: the instant that `chrono` reads from
    /// it, where it reads one that the type holds.
    pub open spec fn parsed(text: Seq<char>) -> Option<Timestamp> {
        match rfc3339_reading(text) {
            Some((secs, nanos, offset)) => if valid_parts(secs, nanos, offset) {
                Some(Self::from_parts(secs, nanos, offset))
            } else {
                None
            },
            None => None,
        }
    }

    /// Whole seconds from `earlier` to this instant, negative where `earlier` is
    /// the later of the two.
    pub fn seconds_since(&self, earlier: &Timestamp) -> (res: i64)
        ensures
            res == self.age_of(*earlier),
    {
        proof {
            use_type_invariant(self);
            use_type_invariant(earlier);
        }
        seconds_between(self, earlier)
    }

    /// The whole seconds that lie between `earlier` and this instant: their
    /// difference with its fraction dropped. Where one of the two lies within a
    /// leap second, it is what `chrono` counts.
    pub open spec fn age_of(self, earlier: Timestamp) -> int {
        if self.in_leap_second() || earlier.in_leap_second() {
            whole_seconds_between(self.secs(), self.nanos(), earlier.secs(), earlier.nanos())
                as int
        } else {
            whole_seconds(
                nanoseconds_between(
                    self.secs() as int,
                    self.nanos() as int,
                    earlier.secs() as int,
                    earlier.nanos() as int,
                ),
            )
        }
    }

    /// The time of day at the timestamp's offset, as `HH:MM:SS`.
    pub fn time_of_day(&self) -> (res: String)
        ensures
            res@ == self.time_of_day_text(),
    {
        proof {
            use_type_invariant(self);
        }
        format_with(self, TIME_OF_DAY_PATTERN)
    }

    /// The text of the time of day: the local second of the day as a clock shows
    /// it. Within a leap second it is what `chrono` writes.
    pub open spec fn time_of_day_text(self) -> Seq<char> {
        if self.in_leap_second() {
            formatted_text(self.secs(), self.nanos(), self.offset(), TIME_OF_DAY_PATTERN@)
        } else {
            clock_text(second_of_day(self.secs() as int, self.offset() as int))
        }
    }

    /// The calendar date at the timestamp's offset, as `DD/MM/YYYY`.
    pub fn calendar_date(&self) -> (res: String)
        ensures
            res@ == self.calendar_date_text(),
    {
        proof {
            use_type_invariant(self);
        }
        format_with(self, CALENDAR_DATE_PATTERN)
    }

    /// The text of the calendar date.
    pub open spec fn calendar_date_text(self) -> Seq<char> {
        formatted_text(self.secs(), self.nanos(), self.offset(), CALENDAR_DATE_PATTERN@)
    }

    /// The timestamp in RFC 3339 form, as it is written beside a stored observation.
    pub fn to_rfc3339(&self) -> (res: String)
        ensures
            res@ == rfc3339_text(self.secs(), self.nanos(), self.offset()),
    {
        proof {
            use_type_invariant(self);
        }
        write_rfc3339(self)
    }
}

} // verus!
