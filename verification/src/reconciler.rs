//! One reconciliation cycle as a state machine.
//!
//! The machine decides; the caller acts. A cycle starts with [`start`]. The caller
//! performs the request it is handed, wraps what came back in a [`Reply`] and
//! calls [`step`], until the request is [`Request::Stop`] or [`Request::Notify`].
//! Nothing is kept between cycles: each one starts from what the store holds.

use crate::attribution::{attribute, attribution};
use crate::clock::Timestamp;
use crate::message::{render, rendering};
use crate::model::{
    history_view, ActivityRecord, ActivityRecordView, StateObservation, StorageError, Subscriber,
};
use crate::remote::{current_status, status_of};
use vstd::prelude::*;

verus! {

/// The polling interval, in seconds, where none is configured.
pub const DEFAULT_POLLING_SECONDS: u64 = 60;

/// What a cycle does once it knows the current status and the last observation.
#[derive(Clone, Copy, Debug, PartialEq, Eq, Structural)]
pub enum Decision {
    /// The status is the one last observed: nothing is written, nobody is told.
    NoOp,
    /// Nothing was ever observed: the status is written as the first observation
    /// and nobody is told.
    Seed,
    /// The status differs from the one last observed: it is written and the
    /// subscribers are told.
    Transition,
    /// The store could not be read: nothing is written, nobody is told.
    Abort,
}

/// The decision that the last observation and the current status call for.
pub open spec fn decision(
    last: Result<Option<StateObservation>, StorageError>,
    current: bool,
) -> Decision {
    match last {
        Ok(None) => Decision::Seed,
        Ok(Some(observation)) => if observation.status == current {
            Decision::NoOp
        } else {
            Decision::Transition
        },
        Err(_) => Decision::Abort,
    }
}

/// Compares the current status with what the store last observed.
///
/// The statuses are compared for equality and nothing else: a single differing
/// reading is a transition. A store that holds nothing calls for seeding; a store
/// that cannot be read calls for neither a write nor a notification.
pub fn decide(last: &Result<Option<StateObservation>, StorageError>, current: bool) -> (d: Decision)
    ensures
        d == decision(*last, current),
{
    match last {
        Ok(None) => Decision::Seed,
        Ok(Some(observation)) => {
            if observation.status == current {
                Decision::NoOp
            } else {
                Decision::Transition
            }
        },
        Err(_) => Decision::Abort,
    }
}

/// What is configured for the cycles.
#[derive(Clone, Debug, PartialEq, Eq)]
pub struct Settings {
    /// For how many seconds after an event its actor is credited with a change.
    pub window_seconds: i64,
    /// The zone offset that the activity feed's times are read under.
    pub zone_offset: String,
}

/// [`Settings`] as a mathematical value.
pub struct SettingsView {
    pub window_seconds: int,
    pub zone_offset: Seq<char>,
}

impl View for Settings {
    type V = SettingsView;

    open spec fn view(&self) -> SettingsView {
        SettingsView { window_seconds: self.window_seconds as int, zone_offset: self.zone_offset@ }
    }
}

/// How a cycle ended where it sent no notification.
#[derive(Clone, Copy, Debug, PartialEq, Eq, Structural)]
pub enum Outcome {
    /// The status is unchanged; the cycle had no effect.
    Unchanged,
    /// The first observation was written.
    Seeded,
    /// The first observation was to be written and the store failed.
    SeedFailed,
    /// The last observation could not be read; nothing was written.
    StoreUnreadable,
    /// The change was handled but the subscribers could not be listed.
    NoAudience,
    /// The reply did not answer the request that was pending.
    OutOfTurn,
}

/// Where a cycle stands.
#[derive(Clone, Debug, PartialEq, Eq)]
pub enum Phase {
    /// The current state is being fetched.
    Fetching,
    /// The current status is known and the last observation is being read.
    Comparing { current: bool },
    /// The first observation is being written.
    Seeding,
    /// The changed status is being written.
    Persisting { current: bool },
    /// The recent activity is being fetched.
    Attributing { current: bool },
    /// The message is written and the subscribers are being listed.
    Listing { message: String },
    /// The cycle is over.
    Finished,
}

/// [`Phase`] as a mathematical value.
pub enum PhaseView {
    Fetching,
    Comparing { current: bool },
    Seeding,
    Persisting { current: bool },
    Attributing { current: bool },
    Listing { message: Seq<char> },
    Finished,
}

impl View for Phase {
    type V = PhaseView;

    open spec fn view(&self) -> PhaseView {
        match *self {
            Phase::Fetching => PhaseView::Fetching,
            Phase::Comparing { current } => PhaseView::Comparing { current },
            Phase::Seeding => PhaseView::Seeding,
            Phase::Persisting { current } => PhaseView::Persisting { current },
            Phase::Attributing { current } => PhaseView::Attributing { current },
            Phase::Listing { message } => PhaseView::Listing { message: message@ },
            Phase::Finished => PhaseView::Finished,
        }
    }
}

/// What the caller is to do next.
#[derive(Clone, Debug, PartialEq, Eq)]
pub enum Request {
    /// Fetch the current state from the status endpoint.
    FetchState,
    /// Read the most recent observation from the state store.
    ReadLastObservation,
    /// Append an observation of `status` to the state store.
    AppendObservation { status: bool },
    /// Fetch the recent activity from the history endpoint and read the clock.
    FetchHistory,
    /// List all subscribers.
    ListSubscribers,
    /// Deliver `message` to each of `subscribers`; the cycle is over.
    Notify { message: String, subscribers: Vec<Subscriber> },
    /// Nothing more; the cycle is over.
    Stop { outcome: Outcome },
}

/// [`Request`] as a mathematical value.
pub enum RequestView {
    FetchState,
    ReadLastObservation,
    AppendObservation { status: bool },
    FetchHistory,
    ListSubscribers,
    Notify { message: Seq<char>, subscribers: Seq<Subscriber> },
    Stop { outcome: Outcome },
}

impl View for Request {
    type V = RequestView;

    open spec fn view(&self) -> RequestView {
        match *self {
            Request::FetchState => RequestView::FetchState,
            Request::ReadLastObservation => RequestView::ReadLastObservation,
            Request::AppendObservation { status } => RequestView::AppendObservation { status },
            Request::FetchHistory => RequestView::FetchHistory,
            Request::ListSubscribers => RequestView::ListSubscribers,
            Request::Notify { message, subscribers } => RequestView::Notify {
                message: message@,
                subscribers: subscribers@,
            },
            Request::Stop { outcome } => RequestView::Stop { outcome },
        }
    }
}

/// What came back from the work that a request asked for.
#[derive(Debug, PartialEq, Eq)]
pub enum Reply {
    /// The id that the status endpoint reported, or `None` where the fetch failed.
    State { reading: Option<u8> },
    /// What the state store answered when asked for its last observation.
    LastObservation { last: Result<Option<StateObservation>, StorageError> },
    /// Whether the state store took the observation.
    Appended { written: Result<(), StorageError> },
    /// The recent activity, or `None` where it could not be had, and the time at
    /// which the change is announced.
    History { records: Option<Vec<ActivityRecord>>, now: Timestamp },
    /// What the subscriber store answered when asked for all subscribers.
    Subscribers { listed: Result<Vec<Subscriber>, StorageError> },
}

/// [`Reply`] as a mathematical value.
pub enum ReplyView {
    State { reading: Option<u8> },
    LastObservation { last: Result<Option<StateObservation>, StorageError> },
    Appended { written: Result<(), StorageError> },
    History { records: Option<Seq<ActivityRecordView>>, now: Timestamp },
    Subscribers { listed: Result<Seq<Subscriber>, StorageError> },
}

impl View for Reply {
    type V = ReplyView;

    open spec fn view(&self) -> ReplyView {
        match *self {
            Reply::State { reading } => ReplyView::State { reading },
            Reply::LastObservation { last } => ReplyView::LastObservation { last },
            Reply::Appended { written } => ReplyView::Appended { written },
            Reply::History { records, now } => ReplyView::History {
                records: history_view(records),
                now,
            },
            Reply::Subscribers { listed } => ReplyView::Subscribers {
                listed: match listed {
                    Ok(subscribers) => Ok(subscribers@),
                    Err(e) => Err(e),
                },
            },
        }
    }
}

/// The phase that follows and the request that is due when `reply` arrives in
/// `phase`.
pub open spec fn transition(phase: PhaseView, reply: ReplyView, settings: SettingsView) -> (
    PhaseView,
    RequestView,
) {
    match (phase, reply) {
        (PhaseView::Fetching, ReplyView::State { reading }) => (
            PhaseView::Comparing { current: status_of(reading) },
            RequestView::ReadLastObservation,
        ),
        (PhaseView::Comparing { current }, ReplyView::LastObservation { last }) => match decision(
            last,
            current,
        ) {
            Decision::NoOp => (
                PhaseView::Finished,
                RequestView::Stop { outcome: Outcome::Unchanged },
            ),
            Decision::Seed => (
                PhaseView::Seeding,
                RequestView::AppendObservation { status: current },
            ),
            Decision::Transition => (
                PhaseView::Persisting { current },
                RequestView::AppendObservation { status: current },
            ),
            Decision::Abort => (
                PhaseView::Finished,
                RequestView::Stop { outcome: Outcome::StoreUnreadable },
            ),
        },
        (PhaseView::Seeding, ReplyView::Appended { written }) => (
            PhaseView::Finished,
            RequestView::Stop {
                outcome: if written is Ok {
                    Outcome::Seeded
                } else {
                    Outcome::SeedFailed
                },
            },
        ),
        (PhaseView::Persisting { current }, ReplyView::Appended { written }) => (
            PhaseView::Attributing { current },
            RequestView::FetchHistory,
        ),
        (PhaseView::Attributing { current }, ReplyView::History { records, now }) => (
            PhaseView::Listing {
                message: rendering(
                    current,
                    attribution(records, settings.window_seconds, now, settings.zone_offset),
                    now,
                ),
            },
            RequestView::ListSubscribers,
        ),
        (PhaseView::Listing { message }, ReplyView::Subscribers { listed }) => match listed {
            Ok(subscribers) => (PhaseView::Finished, RequestView::Notify { message, subscribers }),
            Err(_) => (PhaseView::Finished, RequestView::Stop { outcome: Outcome::NoAudience }),
        },
        _ => (PhaseView::Finished, RequestView::Stop { outcome: Outcome::OutOfTurn }),
    }
}

/// Opens a cycle: the phase it starts in and the first request.
pub fn start() -> (res: (Phase, Request))
    ensures
        res.0@ == PhaseView::Fetching,
        res.1@ == RequestView::FetchState,
{
    (Phase::Fetching, Request::FetchState)
}

/// Takes the reply to the pending request and says what comes next.
///
/// A failed fetch of the state counts as closed. A store without observations is
/// seeded and nobody is told. An unchanged status ends the cycle with no effect. A
/// changed status is written, and whether or not the write succeeds the change is
/// attributed, rendered and handed out for notification. A reply that does not
/// answer the pending request ends the cycle.
pub fn step(phase: Phase, reply: Reply, settings: &Settings) -> (res: (Phase, Request))
    ensures
        (res.0@, res.1@) == transition(phase@, reply@, settings@),
{
    match (phase, reply) {
        (Phase::Fetching, Reply::State { reading }) => (
            Phase::Comparing { current: current_status(reading) },
            Request::ReadLastObservation,
        ),
        (Phase::Comparing { current }, Reply::LastObservation { last }) => match decide(
            &last,
            current,
        ) {
            Decision::NoOp => (Phase::Finished, Request::Stop { outcome: Outcome::Unchanged }),
            Decision::Seed => (Phase::Seeding, Request::AppendObservation { status: current }),
            Decision::Transition => (
                Phase::Persisting { current },
                Request::AppendObservation { status: current },
            ),
            Decision::Abort => (
                Phase::Finished,
                Request::Stop { outcome: Outcome::StoreUnreadable },
            ),
        },
        (Phase::Seeding, Reply::Appended { written }) => {
            let outcome = match written {
                Ok(_) => Outcome::Seeded,
                Err(_) => Outcome::SeedFailed,
            };
            (Phase::Finished, Request::Stop { outcome })
        },
        (Phase::Persisting { current }, Reply::Appended { written }) => (
            Phase::Attributing { current },
            Request::FetchHistory,
        ),
        (Phase::Attributing { current }, Reply::History { records, now }) => {
            let actor = attribute(
                &records,
                settings.window_seconds,
                &now,
                settings.zone_offset.as_str(),
            );
            let message = render(current, &actor, &now);
            (Phase::Listing { message }, Request::ListSubscribers)
        },
        (Phase::Listing { message }, Reply::Subscribers { listed }) => match listed {
            Ok(subscribers) => (Phase::Finished, Request::Notify { message, subscribers }),
            Err(_) => (Phase::Finished, Request::Stop { outcome: Outcome::NoAudience }),
        },
        _ => (Phase::Finished, Request::Stop { outcome: Outcome::OutOfTurn }),
    }
}

} // verus!
