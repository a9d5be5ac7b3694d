//! Who a change of state is credited to.

use crate::clock::{
    nanoseconds_between, rfc3339_reading, valid_parts, whole_seconds, Timestamp,
};
use crate::model::{history_view, option_text, ActivityRecord, ActivityRecordView};
use vstd::prelude::*;
use vstd::string::StringExecFns;

verus! {

/// The zone offset that is appended to the feed's times where none is configured.
pub const DEFAULT_ZONE_OFFSET: &'static str = "+02:00";

/// Whether an event of the given age, in whole seconds, is fresh enough to be
/// credited: its age is strictly less than the window.
pub open spec fn fresh(age_seconds: int, window_seconds: int) -> bool {
    age_seconds < window_seconds
}

/// The actor that an event of a given age is credited to: the actor while the event
/// is fresh, nobody from the moment its age reaches the window.
pub open spec fn credited(
    actor: Seq<char>,
    age_seconds: int,
    window_seconds: int,
) -> Option<Seq<char>> {
    if fresh(age_seconds, window_seconds) {
        Some(actor)
    } else {
        None
    }
}

/// The actor that a feed credits at the instant `now`.
///
/// Only the head of the feed counts, which is its most recent entry. Its time
/// carries no zone, so the configured offset is appended before it is read.
pub open spec fn attribution(
    history: Option<Seq<ActivityRecordView>>,
    window_seconds: int,
    now: Timestamp,
    zone_offset: Seq<char>,
) -> Option<Seq<char>> {
    match history {
        Some(records) => if records.len() == 0 {
            None
        } else {
            match Timestamp::parsed(records[0].event_time + zone_offset) {
                Some(at) => credited(records[0].actor_name, now.age_of(at), window_seconds),
                None => None,
            }
        },
        None => None,
    }
}

/// Credits an actor whose event lies `age_seconds` back, under a freshness window.
///
/// The actor is returned while the age is below the window. At the window itself,
/// and beyond it, nobody is credited.
pub fn attribute_by_age(actor: &str, age_seconds: i64, window_seconds: i64) -> (res: Option<String>)
    ensures
        option_text(res) == credited(actor@, age_seconds as int, window_seconds as int),
        res is None <==> age_seconds >= window_seconds,
{
    if age_seconds < window_seconds {
        Some(String::from_str(actor))
    } else {
        None
    }
}

/// Credits an actor whose event time has been read.
///
/// `event` is what the reading of the event's time gave: the instant, or `None`
/// where the time could not be read. An unread time credits nobody; an instant
/// credits the actor while the whole seconds from it to `now` are fewer than the
/// window.
pub fn attribute_read(
    actor: &str,
    event: Option<Timestamp>,
    now: &Timestamp,
    window_seconds: i64,
) -> (res: Option<String>)
    ensures
        option_text(res) == match event {
            Some(at) => credited(actor@, now.age_of(at), window_seconds as int),
            None => None,
        },
{
    match event {
        Some(at) => {
            let age = now.seconds_since(&at);
            attribute_by_age(actor, age, window_seconds)
        },
        None => None,
    }
}

/// Decides from the recent activity who caused the latest change.
///
/// Returns the actor of the most recent record where that record is younger than
/// the window at `now`. Returns `None` where there is no history, where it is
/// empty, where the record's time cannot be read, and where the record is as old as
/// the window or older.
pub fn attribute(
    history: &Option<Vec<ActivityRecord>>,
    window_seconds: i64,
    now: &Timestamp,
    zone_offset: &str,
) -> (res: Option<String>)
    ensures
        option_text(res) == attribution(
            history_view(*history),
            window_seconds as int,
            *now,
            zone_offset@,
        ),
{
    match history {
        Some(records) => {
            if records.len() == 0 {
                None
            } else {
                let head = &records[0];
                let zoned = head.event_time.clone().concat(zone_offset);
                let event = Timestamp::parse_rfc3339(zoned.as_str());
                attribute_read(head.actor_name.as_str(), event, now, window_seconds)
            }
        },
        None => None,
    }
}

/// The window's boundary is excluded.
///
/// An event whose age has reached the window credits nobody, an event one second
/// younger credits its actor, and in general nobody is credited exactly where the
/// age is at or beyond the window.
pub proof fn law_window_boundary_is_excluded(actor: Seq<char>, window_seconds: int)
    ensures
        credited(actor, window_seconds, window_seconds) is None,
        credited(actor, window_seconds - 1, window_seconds) == Some(actor),
        forall|age: int| #[trigger]
            credited(actor, age, window_seconds) is None <==> age >= window_seconds,
        forall|age: int|
            age < window_seconds ==> #[trigger] credited(actor, age, window_seconds) == Some(
                actor,
            ),
{
}

/// Whole seconds decide as the exact span does.
///
/// Under a window of a second or more, and for any span that is not negative, an
/// event is fresh exactly while fewer nanoseconds have passed than the window
/// holds: cutting the span to whole seconds credits nobody too early or too late.
pub proof fn law_freshness_is_exact(span_nanoseconds: int, window_seconds: int)
    requires
        window_seconds >= 1 || span_nanoseconds >= 0,
    ensures
        fresh(whole_seconds(span_nanoseconds), window_seconds) <==> span_nanoseconds
            < window_seconds * 1_000_000_000,
{
}

/// An actor is credited exactly while the head of the feed is younger than the
/// window.
///
/// A missing feed and a feed without entries credit nobody. Otherwise the head
/// alone decides: where its time cannot be read nobody is credited; where it reads
/// as an instant, the head's actor is credited if the instant's age at `now` is
/// strictly below the window, and nobody from the window on.
pub proof fn law_attribution_respects_window(
    records: Seq<ActivityRecordView>,
    window_seconds: int,
    now: Timestamp,
    zone_offset: Seq<char>,
)
    ensures
        attribution(None, window_seconds, now, zone_offset) is None,
        records.len() == 0 ==> attribution(Some(records), window_seconds, now, zone_offset)
            is None,
        records.len() > 0 ==> attribution(Some(records), window_seconds, now, zone_offset)
            == match Timestamp::parsed(records[0].event_time + zone_offset) {
            Some(at) => if now.age_of(at) < window_seconds {
                Some(records[0].actor_name)
            } else {
                None
            },
            None => None,
        },
{
}

/// Attribution goes by the time that has passed since the head's event.
///
/// Let the head's time, with the offset appended, read as an instant outside a leap
/// second, and let `now` lie outside one too. Then the head's actor is credited
/// exactly where the whole seconds from that instant to `now` are fewer than the
/// window; from the window on, nobody is.
pub proof fn law_attribution_goes_by_elapsed_time(
    records: Seq<ActivityRecordView>,
    window_seconds: int,
    now: Timestamp,
    zone_offset: Seq<char>,
    secs: i64,
    nanos: u32,
    offset: i32,
)
    requires
        records.len() > 0,
        rfc3339_reading(records[0].event_time + zone_offset) == Some((secs, nanos, offset)),
        valid_parts(secs, nanos, offset),
        nanos < 1_000_000_000,
        !now.in_leap_second(),
    ensures
        ({
            let elapsed = whole_seconds(
                nanoseconds_between(
                    now.secs() as int,
                    now.nanos() as int,
                    secs as int,
                    nanos as int,
                ),
            );
            &&& elapsed < window_seconds ==> attribution(
                Some(records),
                window_seconds,
                now,
                zone_offset,
            ) == Some(records[0].actor_name)
            &&& elapsed >= window_seconds ==> attribution(
                Some(records),
                window_seconds,
                now,
                zone_offset,
            ) is None
        }),
{
    Timestamp::from_parts(secs, nanos, offset).lemma_parts();
}

} // verus!
