//! What whole cycles come to, stated over the state machine's transitions.

use crate::attribution::attribution;
use crate::clock::Timestamp;
use crate::message::{announcement, rendering};
use crate::model::{ActivityRecordView, StateObservation, StorageError, Subscriber};
use crate::reconciler::{
    decision, transition, Decision, Outcome, PhaseView, ReplyView, RequestView, SettingsView,
};
use crate::remote::status_of;
use crate::state_store::{appended, has_room, in_history_order, latest, FIRST_ID};
use vstd::prelude::*;

verus! {

/// What the surroundings answer in the course of one cycle.
pub struct World {
    /// The id that the status endpoint reports, or `None` where the fetch fails.
    pub reading: Option<u8>,
    /// What the state store answers when asked for its last observation.
    pub last: Result<Option<StateObservation>, StorageError>,
    /// Whether the state store takes an observation.
    pub written: Result<(), StorageError>,
    /// The recent activity, or `None` where it cannot be had.
    pub records: Option<Seq<ActivityRecordView>>,
    /// The time at which a change is announced.
    pub now: Timestamp,
    /// What the subscriber store answers when asked for all subscribers.
    pub listed: Result<Seq<Subscriber>, StorageError>,
}

/// The reply that a request gets in `world`, or `None` for the two requests that
/// end a cycle.
pub open spec fn answer(world: World, request: RequestView) -> Option<ReplyView> {
    match request {
        RequestView::FetchState => Some(ReplyView::State { reading: world.reading }),
        RequestView::ReadLastObservation => Some(ReplyView::LastObservation { last: world.last }),
        RequestView::AppendObservation { status } => Some(
            ReplyView::Appended { written: world.written },
        ),
        RequestView::FetchHistory => Some(
            ReplyView::History { records: world.records, now: world.now },
        ),
        RequestView::ListSubscribers => Some(ReplyView::Subscribers { listed: world.listed }),
        RequestView::Notify { message, subscribers } => None,
        RequestView::Stop { outcome } => None,
    }
}

/// The requests that are made from `request` on, when each is answered as `world`
/// says and at most `steps` replies are taken.
pub open spec fn requests_from(
    world: World,
    settings: SettingsView,
    phase: PhaseView,
    request: RequestView,
    steps: nat,
) -> Seq<RequestView>
    decreases steps,
{
    if steps == 0 {
        seq![request]
    } else {
        match answer(world, request) {
            Some(reply) => {
                let next = transition(phase, reply, settings);
                seq![request] + requests_from(world, settings, next.0, next.1, (steps - 1) as nat)
            },
            None => seq![request],
        }
    }
}

/// The requests of one whole cycle in `world`, in the order in which they are made.
/// No cycle takes more than five replies.
pub open spec fn cycle_requests(world: World, settings: SettingsView) -> Seq<RequestView> {
    requests_from(world, settings, PhaseView::Fetching, RequestView::FetchState, 5)
}

/// How many of the requests ask for an observation to be appended.
pub open spec fn appends_in(requests: Seq<RequestView>) -> nat
    decreases requests.len(),
{
    if requests.len() == 0 {
        0
    } else {
        appends_in(requests.drop_last()) + if requests.last() is AppendObservation {
            1nat
        } else {
            0nat
        }
    }
}

/// How many of the requests ask for a notification.
pub open spec fn notifications_in(requests: Seq<RequestView>) -> nat
    decreases requests.len(),
{
    if requests.len() == 0 {
        0
    } else {
        notifications_in(requests.drop_last()) + if requests.last() is Notify {
            1nat
        } else {
            0nat
        }
    }
}

/// The message that a change to `current` is announced with in `world`.
pub open spec fn cycle_message(world: World, settings: SettingsView, current: bool) -> Seq<char> {
    rendering(
        current,
        attribution(world.records, settings.window_seconds, world.now, settings.zone_offset),
        world.now,
    )
}

/// The requests of a cycle, by what the store last observed.
///
/// Every cycle fetches the state and reads the last observation. Where the store
/// cannot be read, or holds the current status already, it stops there. On an empty
/// store it appends the current status and stops. On a changed status it appends
/// the current status, fetches the history, lists the subscribers and hands the
/// rendered message out for all of them, or stops where they cannot be listed.
pub proof fn law_cycle_requests(world: World, settings: SettingsView)
    ensures
        cycle_requests(world, settings) == {
            let current = status_of(world.reading);
            let opening = seq![RequestView::FetchState, RequestView::ReadLastObservation];
            match decision(world.last, current) {
                Decision::Abort => opening.push(
                    RequestView::Stop { outcome: Outcome::StoreUnreadable },
                ),
                Decision::NoOp => opening.push(RequestView::Stop { outcome: Outcome::Unchanged }),
                Decision::Seed => opening.push(
                    RequestView::AppendObservation { status: current },
                ).push(
                    RequestView::Stop {
                        outcome: if world.written is Ok {
                            Outcome::Seeded
                        } else {
                            Outcome::SeedFailed
                        },
                    },
                ),
                Decision::Transition => opening.push(
                    RequestView::AppendObservation { status: current },
                ).push(RequestView::FetchHistory).push(RequestView::ListSubscribers).push(
                    match world.listed {
                        Ok(subscribers) => RequestView::Notify {
                            message: cycle_message(world, settings, current),
                            subscribers,
                        },
                        Err(_) => RequestView::Stop { outcome: Outcome::NoAudience },
                    },
                ),
            }
        },
{
    reveal_with_fuel(requests_from, 6);
    let current = status_of(world.reading);
    let got = cycle_requests(world, settings);
    match decision(world.last, current) {
        Decision::Abort => {
            assert(got =~= seq![
                RequestView::FetchState,
                RequestView::ReadLastObservation,
                RequestView::Stop { outcome: Outcome::StoreUnreadable },
            ]);
        },
        Decision::NoOp => {
            assert(got =~= seq![
                RequestView::FetchState,
                RequestView::ReadLastObservation,
                RequestView::Stop { outcome: Outcome::Unchanged },
            ]);
        },
        Decision::Seed => {
            let end = RequestView::Stop {
                outcome: if world.written is Ok {
                    Outcome::Seeded
                } else {
                    Outcome::SeedFailed
                },
            };
            assert(got =~= seq![
                RequestView::FetchState,
                RequestView::ReadLastObservation,
                RequestView::AppendObservation { status: current },
                end,
            ]);
        },
        Decision::Transition => {
            let end = match world.listed {
                Ok(subscribers) => RequestView::Notify {
                    message: cycle_message(world, settings, current),
                    subscribers,
                },
                Err(_) => RequestView::Stop { outcome: Outcome::NoAudience },
            };
            assert(got =~= seq![
                RequestView::FetchState,
                RequestView::ReadLastObservation,
                RequestView::AppendObservation { status: current },
                RequestView::FetchHistory,
                RequestView::ListSubscribers,
                end,
            ]);
        },
    }
}

/// The log after the appends among `requests` were made on it, in order, at `now`.
pub open spec fn stored_after(
    log: Seq<StateObservation>,
    requests: Seq<RequestView>,
    now: Timestamp,
) -> Seq<StateObservation>
    decreases requests.len(),
{
    if requests.len() == 0 {
        log
    } else {
        let before = stored_after(log, requests.drop_last(), now);
        match requests.last() {
            RequestView::AppendObservation { status } => appended(before, status, now),
            _ => before,
        }
    }
}

/// The world as a cycle meets it on a store that holds `log`: the store answers
/// with its most recent observation and takes a write while it has room.
pub open spec fn world_over(log: Seq<StateObservation>, world: World) -> World {
    World {
        last: Ok(latest(log)),
        written: if has_room(log) {
            Ok(())
        } else {
            Err(StorageError::Constraint)
        },
        ..world
    }
}

/// What a store that holds `log` holds after one cycle in `world`.
pub open spec fn log_after_cycle(
    log: Seq<StateObservation>,
    world: World,
    settings: SettingsView,
) -> Seq<StateObservation> {
    stored_after(log, cycle_requests(world_over(log, world), settings), world.now)
}

/// What a store that holds `log` holds after one cycle in each of `worlds`, in
/// order.
pub open spec fn log_after_cycles(
    log: Seq<StateObservation>,
    worlds: Seq<World>,
    settings: SettingsView,
) -> Seq<StateObservation>
    decreases worlds.len(),
{
    if worlds.len() == 0 {
        log
    } else {
        log_after_cycle(
            log_after_cycles(log, worlds.drop_last(), settings),
            worlds.last(),
            settings,
        )
    }
}

/// The statuses that the cycles in `worlds` find, in order.
pub open spec fn statuses_of(worlds: Seq<World>) -> Seq<bool> {
    worlds.map_values(|w: World| status_of(w.reading))
}

/// The status that precedes position `i` of `statuses`, where `previous` precedes
/// the first.
pub open spec fn status_before(previous: bool, statuses: Seq<bool>, i: int) -> bool {
    if i == 0 {
        previous
    } else {
        statuses[i - 1]
    }
}

/// How often the status flips along `statuses`, where `previous` precedes the
/// first.
pub open spec fn flips(previous: bool, statuses: Seq<bool>) -> nat
    decreases statuses.len(),
{
    if statuses.len() == 0 {
        0
    } else {
        flips(previous, statuses.drop_last()) + if statuses.last() != status_before(
            previous,
            statuses,
            statuses.len() - 1,
        ) {
            1nat
        } else {
            0nat
        }
    }
}

/// Whether each observation of a log differs in status from the one before it.
pub open spec fn alternating(log: Seq<StateObservation>) -> bool {
    forall|i: int| 0 < i < log.len() ==> (#[trigger] log[i]).status != log[i - 1].status
}

/// One more request adds one to the count of appends exactly where it is an append,
/// and likewise for notifications.
proof fn lemma_counts_after_push(requests: Seq<RequestView>, request: RequestView)
    ensures
        appends_in(requests.push(request)) == appends_in(requests) + if request
            is AppendObservation {
            1nat
        } else {
            0nat
        },
        notifications_in(requests.push(request)) == notifications_in(requests) + if request
            is Notify {
            1nat
        } else {
            0nat
        },
{
    assert(requests.push(request).drop_last() == requests);
}

/// One more request changes the log exactly where it is an append.
proof fn lemma_stored_after_push(
    log: Seq<StateObservation>,
    requests: Seq<RequestView>,
    request: RequestView,
    now: Timestamp,
)
    ensures
        stored_after(log, requests.push(request), now) == match request {
            RequestView::AppendObservation { status } => appended(
                stored_after(log, requests, now),
                status,
                now,
            ),
            _ => stored_after(log, requests, now),
        },
{
    assert(requests.push(request).drop_last() == requests);
}

/// A cycle appends at most once and notifies at most once.
///
/// It appends exactly where the store is empty or its last status differs from the
/// current one, and what it appends is the current status. It notifies exactly
/// where the last status differs from the current one and the subscribers can be
/// listed.
pub proof fn law_cycle_effects(world: World, settings: SettingsView, log: Seq<StateObservation>)
    ensures
        ({
            let current = status_of(world.reading);
            let requests = cycle_requests(world, settings);
            let d = decision(world.last, current);
            &&& appends_in(requests) == if d == Decision::Seed || d == Decision::Transition {
                1nat
            } else {
                0nat
            }
            &&& notifications_in(requests) == if d == Decision::Transition && world.listed is Ok {
                1nat
            } else {
                0nat
            }
            &&& stored_after(log, requests, world.now) == if d == Decision::Seed || d
                == Decision::Transition {
                appended(log, current, world.now)
            } else {
                log
            }
        }),
{
    law_cycle_requests(world, settings);
    let current = status_of(world.reading);
    let now = world.now;
    let none = Seq::<RequestView>::empty();
    let r0 = RequestView::FetchState;
    let r1 = RequestView::ReadLastObservation;
    let opening = seq![r0, r1];
    assert(opening == none.push(r0).push(r1));
    lemma_counts_after_push(none, r0);
    lemma_counts_after_push(none.push(r0), r1);
    lemma_stored_after_push(log, none, r0, now);
    lemma_stored_after_push(log, none.push(r0), r1, now);
    match decision(world.last, current) {
        Decision::Abort => {
            let end = RequestView::Stop { outcome: Outcome::StoreUnreadable };
            lemma_counts_after_push(opening, end);
            lemma_stored_after_push(log, opening, end, now);
        },
        Decision::NoOp => {
            let end = RequestView::Stop { outcome: Outcome::Unchanged };
            lemma_counts_after_push(opening, end);
            lemma_stored_after_push(log, opening, end, now);
        },
        Decision::Seed => {
            let write = RequestView::AppendObservation { status: current };
            let end = RequestView::Stop {
                outcome: if world.written is Ok {
                    Outcome::Seeded
                } else {
                    Outcome::SeedFailed
                },
            };
            lemma_counts_after_push(opening, write);
            lemma_counts_after_push(opening.push(write), end);
            lemma_stored_after_push(log, opening, write, now);
            lemma_stored_after_push(log, opening.push(write), end, now);
        },
        Decision::Transition => {
            let write = RequestView::AppendObservation { status: current };
            let r3 = RequestView::FetchHistory;
            let r4 = RequestView::ListSubscribers;
            let end = match world.listed {
                Ok(subscribers) => RequestView::Notify {
                    message: cycle_message(world, settings, current),
                    subscribers,
                },
                Err(_) => RequestView::Stop { outcome: Outcome::NoAudience },
            };
            lemma_counts_after_push(opening, write);
            lemma_counts_after_push(opening.push(write), r3);
            lemma_counts_after_push(opening.push(write).push(r3), r4);
            lemma_counts_after_push(opening.push(write).push(r3).push(r4), end);
            lemma_stored_after_push(log, opening, write, now);
            lemma_stored_after_push(log, opening.push(write), r3, now);
            lemma_stored_after_push(log, opening.push(write).push(r3), r4, now);
            lemma_stored_after_push(log, opening.push(write).push(r3).push(r4), end, now);
        },
    }
}

/// The first cycle seeds the store and tells nobody.
///
/// On a store without observations a cycle makes no request for notification,
/// whatever state is fetched, and asks once for an append, of the fetched status.
/// Afterwards the store holds exactly one observation, which has that status.
pub proof fn law_first_cycle_seeds_silently(world: World, settings: SettingsView)
    ensures
        ({
            let empty = Seq::<StateObservation>::empty();
            let requests = cycle_requests(world_over(empty, world), settings);
            let after = log_after_cycle(empty, world, settings);
            &&& notifications_in(requests) == 0
            &&& appends_in(requests) == 1
            &&& requests[2] == RequestView::AppendObservation { status: status_of(world.reading) }
            &&& after.len() == 1
            &&& after[0].status == status_of(world.reading)
            &&& in_history_order(after)
        }),
{
    let empty = Seq::<StateObservation>::empty();
    law_cycle_effects(world_over(empty, world), settings, empty);
    law_cycle_requests(world_over(empty, world), settings);
}

/// What one cycle leaves in a store that holds observations already.
///
/// Where the fetched status is the last one stored, the log stays as it is. Where
/// it differs, and the log has room, the log grows by one observation of the
/// fetched status and keeps everything it held.
pub proof fn law_cycle_appends_on_flip_only(
    log: Seq<StateObservation>,
    world: World,
    settings: SettingsView,
)
    requires
        log.len() > 0,
    ensures
        ({
            let current = status_of(world.reading);
            let requests = cycle_requests(world_over(log, world), settings);
            let after = log_after_cycle(log, world, settings);
            &&& log.last().status == current ==> appends_in(requests) == 0 && after == log
            &&& log.last().status != current ==> appends_in(requests) == 1 && after == appended(
                log,
                current,
                world.now,
            )
            &&& log.last().status != current && has_room(log) ==> after.len() == log.len() + 1
                && after.last().status == current && after.take(log.len() as int) == log
        }),
{
    law_cycle_effects(world_over(log, world), settings, log);
    let current = status_of(world.reading);
    if log.last().status != current && has_room(log) {
        let after = appended(log, current, world.now);
        assert(after.take(log.len() as int) == log);
    }
}

/// One observation is appended for each flip of the status, and none where it
/// repeats.
///
/// Run one cycle for each of `worlds`, in order, on a store that holds
/// observations and has room for as many more. Then the store has grown by as
/// many observations as the fetched statuses flip, counted from the last stored
/// status on. What it held before is still there, in front. Where each stored
/// observation differed in status from the one before it, that is still so.
pub proof fn law_one_observation_per_flip(
    log: Seq<StateObservation>,
    worlds: Seq<World>,
    settings: SettingsView,
)
    requires
        log.len() > 0,
        in_history_order(log),
        log.last().id + worlds.len() <= i64::MAX,
    ensures
        ({
            let after = log_after_cycles(log, worlds, settings);
            let statuses = statuses_of(worlds);
            &&& after.len() == log.len() + flips(log.last().status, statuses)
            &&& after.take(log.len() as int) == log
            &&& after.last().status == status_before(
                log.last().status,
                statuses,
                statuses.len() as int,
            )
            &&& after.last().id <= log.last().id + worlds.len()
            &&& in_history_order(after)
            &&& alternating(log) ==> alternating(after)
        }),
    decreases worlds.len(),
{
    let statuses = statuses_of(worlds);
    if worlds.len() == 0 {
        assert(log.take(log.len() as int) == log);
    } else {
        let earlier = worlds.drop_last();
        let world = worlds.last();
        law_one_observation_per_flip(log, earlier, settings);
        let before = log_after_cycles(log, earlier, settings);
        law_cycle_appends_on_flip_only(before, world, settings);
        let after = log_after_cycle(before, world, settings);
        let current = status_of(world.reading);
        assert(statuses_of(earlier) == statuses.drop_last());
        assert(statuses.last() == current);
        assert(before.last().status == status_before(
            log.last().status,
            statuses,
            statuses.len() - 1,
        ));
        if before.last().status != current {
            assert(has_room(before));
            assert(after == before.push(after.last()));
            assert(after.take(log.len() as int) == before.take(log.len() as int));
            assert forall|i: int, j: int| 0 <= i < j < after.len() implies (#[trigger] after[i]).id
                < (#[trigger] after[j]).id by {
                if j < before.len() {
                    assert(after[i] == before[i] && after[j] == before[j]);
                } else {
                    assert(after[i] == before[i]);
                    if i < before.len() - 1 {
                        assert(before[i].id < before[before.len() - 1].id);
                    }
                }
            }
            assert forall|i: int| 0 <= i < after.len() implies FIRST_ID <= (
            #[trigger] after[i]).id by {
                if i < before.len() {
                    assert(after[i] == before[i]);
                } else {
                    assert(FIRST_ID <= before[before.len() - 1].id);
                }
            }
            if alternating(log) {
                assert forall|i: int| 0 < i < after.len() implies (#[trigger] after[i]).status
                    != after[i - 1].status by {
                    if i < before.len() {
                        assert(after[i] == before[i] && after[i - 1] == before[i - 1]);
                    } else {
                        assert(after[i - 1] == before[before.len() - 1]);
                    }
                }
            }
        }
    }
}

/// Statuses that alternate strictly are all observed; a status that repeats is
/// never observed again.
///
/// Where each fetched status differs from the one before it, the first from the
/// last stored, the store grows by one observation for each cycle. Where every
/// fetched status is the last stored one, the store does not grow.
pub proof fn law_alternating_statuses_are_all_observed(
    log: Seq<StateObservation>,
    worlds: Seq<World>,
    settings: SettingsView,
)
    requires
        log.len() > 0,
        in_history_order(log),
        log.last().id + worlds.len() <= i64::MAX,
    ensures
        (forall|i: int|
            0 <= i < worlds.len() ==> (#[trigger] statuses_of(worlds)[i]) != status_before(
                log.last().status,
                statuses_of(worlds),
                i,
            )) ==> log_after_cycles(log, worlds, settings).len() == log.len() + worlds.len(),
        (forall|i: int|
            0 <= i < worlds.len() ==> (#[trigger] statuses_of(worlds)[i]) == log.last().status)
            ==> log_after_cycles(log, worlds, settings) == log,
{
    law_one_observation_per_flip(log, worlds, settings);
    let statuses = statuses_of(worlds);
    let previous = log.last().status;
    if forall|i: int|
        0 <= i < worlds.len() ==> (#[trigger] statuses[i]) != status_before(previous, statuses, i) {
        lemma_flips_when_alternating(previous, statuses);
    }
    if forall|i: int| 0 <= i < worlds.len() ==> (#[trigger] statuses[i]) == previous {
        lemma_flips_when_constant(previous, statuses);
        let after = log_after_cycles(log, worlds, settings);
        assert(after.take(log.len() as int) == after);
    }
}

/// Statuses that differ from their predecessor at every position flip as often as
/// they are long.
proof fn lemma_flips_when_alternating(previous: bool, statuses: Seq<bool>)
    requires
        forall|i: int|
            0 <= i < statuses.len() ==> (#[trigger] statuses[i]) != status_before(
                previous,
                statuses,
                i,
            ),
    ensures
        flips(previous, statuses) == statuses.len(),
    decreases statuses.len(),
{
    if statuses.len() > 0 {
        let shorter = statuses.drop_last();
        assert forall|i: int| 0 <= i < shorter.len() implies (#[trigger] shorter[i])
            != status_before(previous, shorter, i) by {
            assert(shorter[i] == statuses[i]);
            assert(status_before(previous, shorter, i) == status_before(previous, statuses, i));
        }
        lemma_flips_when_alternating(previous, shorter);
        let n = statuses.len() - 1;
        assert(statuses[n] != status_before(previous, statuses, n));
    }
}

/// Statuses that all equal the one before the first never flip.
proof fn lemma_flips_when_constant(previous: bool, statuses: Seq<bool>)
    requires
        forall|i: int| 0 <= i < statuses.len() ==> (#[trigger] statuses[i]) == previous,
    ensures
        flips(previous, statuses) == 0,
    decreases statuses.len(),
{
    if statuses.len() > 0 {
        let shorter = statuses.drop_last();
        assert forall|i: int| 0 <= i < shorter.len() implies (#[trigger] shorter[i])
            == previous by {
            assert(shorter[i] == statuses[i]);
        }
        lemma_flips_when_constant(previous, shorter);
        let n = statuses.len() - 1;
        assert(statuses[n] == previous);
        if n > 0 {
            assert(statuses[n - 1] == previous);
        }
    }
}

/// A closed facility is announced without an actor, whoever the feed credits.
///
/// So a reading that could not be fetched, which counts as closed, leads to the
/// announcement of a closure that names nobody.
pub proof fn law_closure_names_nobody(world: World, settings: SettingsView)
    ensures
        status_of(None) == false,
        cycle_message(world, settings, false) == announcement(
            false,
            None,
            world.now.time_of_day_text(),
            world.now.calendar_date_text(),
        ),
{
}

} // verus!
