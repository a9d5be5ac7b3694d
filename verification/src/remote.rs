//! Reading what the remote endpoints returned.

use crate::model::{history_view, ActivityRecord, ActivityRecordView};
use vstd::prelude::*;

verus! {

/// The id that the status endpoint reports while the facility is open.
pub const OPEN_STATE_ID: u8 = 1;

/// The state that a reading of the status endpoint reports: open under the id of the
/// open state, closed under any other id, and nothing where no reading could be
/// had.
pub open spec fn reported_state(reading: Option<u8>) -> Option<bool> {
    match reading {
        Some(id) => Some(id == OPEN_STATE_ID),
        None => None,
    }
}

/// The status that a cycle goes by: the reported state, and closed where none was
/// reported.
pub open spec fn status_of(reading: Option<u8>) -> bool {
    match reported_state(reading) {
        Some(open) => open,
        None => false,
    }
}

/// Turns a reading of the status endpoint into the state that it reports.
///
/// `None` stands for a reading that failed in transport, in parsing or by timeout,
/// and is handed on as `None`.
pub fn fetched_state(reading: Option<u8>) -> (state: Option<bool>)
    ensures
        state == reported_state(reading),
{
    match reading {
        Some(id) => Some(id == OPEN_STATE_ID),
        None => None,
    }
}

/// Turns a reading of the status endpoint into the status that a cycle goes by.
///
/// A reading that could not be had counts as closed, so that a failing endpoint
/// never stops a cycle.
pub fn current_status(reading: Option<u8>) -> (status: bool)
    ensures
        status == status_of(reading),
        status <==> reading == Some(OPEN_STATE_ID),
{
    match fetched_state(reading) {
        Some(open) => open,
        None => false,
    }
}

/// The feed that the history endpoint's answer stands for: a feed without entries
/// is no feed.
pub open spec fn activity_of(
    fetched: Option<Seq<ActivityRecordView>>,
) -> Option<Seq<ActivityRecordView>> {
    match fetched {
        Some(records) => if records.len() == 0 {
            None
        } else {
            Some(records)
        },
        None => None,
    }
}

/// Turns what came back from the history endpoint into the recent activity.
///
/// `None` stands for an answer that failed in transport or in parsing. An answer
/// without entries gives `None` too.
pub fn recent_activity(fetched: Option<Vec<ActivityRecord>>) -> (res: Option<Vec<ActivityRecord>>)
    ensures
        history_view(res) == activity_of(history_view(fetched)),
        res matches Some(records) ==> fetched == Some(records),
{
    match fetched {
        Some(records) => {
            if records.len() == 0 {
                None
            } else {
                Some(records)
            }
        },
        None => None,
    }
}

} // verus!
