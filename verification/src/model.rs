//! The records that the stores keep and the remote endpoints report.

use crate::clock::Timestamp;
use vstd::prelude::*;

verus! {

/// Why a store could not serve a request.
#[derive(Clone, Copy, Debug, PartialEq, Eq, Structural)]
pub enum StorageError {
    /// The store could not be read or written.
    Io,
    /// The store refused the write because one of its constraints would break.
    Constraint,
}

/// What became of a request to add a subscriber.
#[derive(Clone, Copy, Debug, PartialEq, Eq, Structural)]
pub enum AddOutcome {
    /// The subscriber was not known and is now stored.
    Inserted,
    /// A subscriber with this external id was stored before; nothing changed.
    AlreadyExists,
}

/// One persisted reading of the facility's state.
#[derive(Clone, Copy, Debug, PartialEq, Eq)]
pub struct StateObservation {
    /// Sequence number that the store gave; later observations have larger ones.
    pub id: i64,
    /// `true` where the facility was open.
    pub status: bool,
    /// When the observation was written.
    pub observed_at: Timestamp,
}

/// A registered target of notifications.
#[derive(Clone, Copy, Debug, PartialEq, Eq)]
pub struct Subscriber {
    /// Sequence number that the store gave.
    pub id: i64,
    /// The id under which the messaging transport reaches the subscriber.
    pub external_id: i64,
}

/// One entry of the remote activity feed.
#[derive(Clone, Debug, PartialEq, Eq)]
pub struct ActivityRecord {
    /// Who acted.
    pub actor_name: String,
    /// When, as the feed writes it: a date and time without a zone.
    pub event_time: String,
}

/// An [`ActivityRecord`] with its texts as sequences of characters.
pub struct ActivityRecordView {
    pub actor_name: Seq<char>,
    pub event_time: Seq<char>,
}

impl View for ActivityRecord {
    type V = ActivityRecordView;

    open spec fn view(&self) -> ActivityRecordView {
        ActivityRecordView { actor_name: self.actor_name@, event_time: self.event_time@ }
    }
}

/// The records of a feed, each by its view.
pub open spec fn records_view(records: Seq<ActivityRecord>) -> Seq<ActivityRecordView> {
    records.map_values(|r: ActivityRecord| r@)
}

/// A feed that may be missing, by its view.
pub open spec fn history_view(
    history: Option<Vec<ActivityRecord>>,
) -> Option<Seq<ActivityRecordView>> {
    match history {
        Some(records) => Some(records_view(records@)),
        None => None,
    }
}

/// An optional text as an optional sequence of characters.
pub open spec fn option_text(text: Option<String>) -> Option<Seq<char>> {
    match text {
        Some(s) => Some(s@),
        None => None,
    }
}

} // verus!
