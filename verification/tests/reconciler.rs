use presencebot::clock::Timestamp;
use presencebot::model::{ActivityRecord, StateObservation, StorageError, Subscriber};
use presencebot::notifier::{DeliveryReport, Fanout};
use presencebot::reconciler::{
    decide, start, step, Decision, Outcome, Phase, Reply, Request, Settings,
    DEFAULT_POLLING_SECONDS,
};
use presencebot::state_store::StateStore;
use presencebot::subscriber_store::SubscriberStore;

/// Everything a cycle talks to, held in memory.
struct Surroundings {
    state: StateStore,
    subscribers: SubscriberStore,
    reading: Option<u8>,
    history: Option<Vec<ActivityRecord>>,
    now: Timestamp,
    state_store_unreadable: bool,
    state_store_read_only: bool,
    subscriber_store_unreadable: bool,
    unreachable: Vec<i64>,
}

/// What a cycle did.
struct Effects {
    requests: Vec<&'static str>,
    outcome: Option<Outcome>,
    sent: Vec<(i64, String)>,
    report: Option<DeliveryReport>,
}

fn noon() -> Timestamp {
    // 2024-03-05T12:34:56+02:00
    Timestamp::new(1_709_634_896, 0, 7_200).expect("a timestamp within range")
}

fn settings() -> Settings {
    Settings { window_seconds: 30, zone_offset: String::from("+02:00") }
}

fn record(actor: &str, time: &str) -> ActivityRecord {
    ActivityRecord { actor_name: String::from(actor), event_time: String::from(time) }
}

fn surroundings(reading: Option<u8>) -> Surroundings {
    Surroundings {
        state: StateStore::new(),
        subscribers: SubscriberStore::new(),
        reading,
        history: None,
        now: noon(),
        state_store_unreadable: false,
        state_store_read_only: false,
        subscriber_store_unreadable: false,
        unreachable: Vec::new(),
    }
}

fn with_last_status(status: bool, reading: Option<u8>) -> Surroundings {
    let mut around = surroundings(reading);
    around.state.append_observation(status, noon()).expect("room");
    around
}

fn with_subscribers(mut around: Surroundings, external_ids: &[i64]) -> Surroundings {
    for external_id in external_ids {
        around.subscribers.add_subscriber(*external_id).expect("room");
    }
    around
}

fn label(request: &Request) -> &'static str {
    match request {
        Request::FetchState => "fetch state",
        Request::ReadLastObservation => "read last",
        Request::AppendObservation { status: true } => "append open",
        Request::AppendObservation { status: false } => "append closed",
        Request::FetchHistory => "fetch history",
        Request::ListSubscribers => "list subscribers",
        Request::Notify { .. } => "notify",
        Request::Stop { .. } => "stop",
    }
}

/// Runs one cycle: performs each request on the surroundings and hands the reply
/// back, then fans the notification out where one is due.
fn run_cycle(around: &mut Surroundings, settings: &Settings) -> Effects {
    let mut effects = Effects { requests: Vec::new(), outcome: None, sent: Vec::new(), report: None };
    let (mut phase, mut request) = start();
    loop {
        effects.requests.push(label(&request));
        let reply = match request {
            Request::FetchState => Reply::State { reading: around.reading },
            Request::ReadLastObservation => Reply::LastObservation {
                last: if around.state_store_unreadable {
                    Err(StorageError::Io)
                } else {
                    around.state.last_observation()
                },
            },
            Request::AppendObservation { status } => Reply::Appended {
                written: if around.state_store_read_only {
                    Err(StorageError::Io)
                } else {
                    around.state.append_observation(status, around.now)
                },
            },
            Request::FetchHistory => {
                Reply::History { records: around.history.clone(), now: around.now }
            }
            Request::ListSubscribers => Reply::Subscribers {
                listed: if around.subscriber_store_unreadable {
                    Err(StorageError::Io)
                } else {
                    around.subscribers.all_subscribers()
                },
            },
            Request::Notify { message, subscribers } => {
                let mut fanout = Fanout::new(message, &subscribers);
                while let Some(target) = fanout.next_target() {
                    let delivered = !around.unreachable.contains(&target);
                    if delivered {
                        effects.sent.push((target, String::from(fanout.message())));
                    }
                    fanout.record(delivered);
                }
                effects.report = Some(fanout.report());
                assert_eq!(phase, Phase::Finished);
                return effects;
            }
            Request::Stop { outcome } => {
                effects.outcome = Some(outcome);
                assert_eq!(phase, Phase::Finished);
                return effects;
            }
        };
        let next = step(phase, reply, settings);
        phase = next.0;
        request = next.1;
    }
}

fn statuses(store: &StateStore) -> Vec<bool> {
    store.observations().iter().map(|o| o.status).collect()
}

#[test]
fn polling_defaults_to_a_minute() {
    assert_eq!(DEFAULT_POLLING_SECONDS, 60);
}

#[test]
fn decide_compares_for_equality() {
    let open = StateObservation { id: 1, status: true, observed_at: noon() };
    let closed = StateObservation { id: 1, status: false, observed_at: noon() };
    assert_eq!(decide(&Ok(Some(open)), true), Decision::NoOp);
    assert_eq!(decide(&Ok(Some(closed)), false), Decision::NoOp);
    assert_eq!(decide(&Ok(Some(open)), false), Decision::Transition);
    assert_eq!(decide(&Ok(Some(closed)), true), Decision::Transition);
}

#[test]
fn decide_seeds_an_empty_store() {
    assert_eq!(decide(&Ok(None), true), Decision::Seed);
    assert_eq!(decide(&Ok(None), false), Decision::Seed);
}

#[test]
fn decide_aborts_on_a_store_that_cannot_be_read() {
    assert_eq!(decide(&Err(StorageError::Io), true), Decision::Abort);
    assert_eq!(decide(&Err(StorageError::Constraint), false), Decision::Abort);
}

#[test]
fn a_cycle_starts_by_fetching_the_state() {
    assert_eq!(start(), (Phase::Fetching, Request::FetchState));
}

#[test]
fn step_by_step_through_a_transition() {
    let settings = settings();
    let last = StateObservation { id: 4, status: false, observed_at: noon() };
    let (phase, request) = step(Phase::Fetching, Reply::State { reading: Some(1) }, &settings);
    assert_eq!((&phase, &request), (&Phase::Comparing { current: true }, &Request::ReadLastObservation));
    let (phase, request) = step(phase, Reply::LastObservation { last: Ok(Some(last)) }, &settings);
    assert_eq!(
        (&phase, &request),
        (&Phase::Persisting { current: true }, &Request::AppendObservation { status: true })
    );
    let (phase, request) = step(phase, Reply::Appended { written: Ok(()) }, &settings);
    assert_eq!((&phase, &request), (&Phase::Attributing { current: true }, &Request::FetchHistory));
    let history = Some(vec![record("Alice", "2024-03-05T12:34:51")]);
    let (phase, request) = step(phase, Reply::History { records: history, now: noon() }, &settings);
    let message = String::from("Il laboratorio è stato aperto alle 12:34:56 del 05/03/2024 da Alice");
    assert_eq!(
        (&phase, &request),
        (&Phase::Listing { message: message.clone() }, &Request::ListSubscribers)
    );
    let listed = vec![Subscriber { id: 1, external_id: 77 }];
    let (phase, request) = step(phase, Reply::Subscribers { listed: Ok(listed.clone()) }, &settings);
    assert_eq!(phase, Phase::Finished);
    assert_eq!(request, Request::Notify { message, subscribers: listed });
}

#[test]
fn first_cycle_on_open_seeds_without_notifying() {
    let mut around = with_subscribers(surroundings(Some(1)), &[10, 20]);
    let effects = run_cycle(&mut around, &settings());
    assert_eq!(effects.requests, vec!["fetch state", "read last", "append open", "stop"]);
    assert_eq!(effects.outcome, Some(Outcome::Seeded));
    assert!(effects.sent.is_empty());
    assert_eq!(effects.report, None);
    assert_eq!(
        around.state.observations(),
        vec![StateObservation { id: 1, status: true, observed_at: noon() }]
    );
}

#[test]
fn first_cycle_never_notifies_whatever_is_fetched() {
    for reading in [None, Some(0), Some(1), Some(2), Some(255)] {
        let mut around = with_subscribers(surroundings(reading), &[10, 20, 30]);
        around.history = Some(vec![record("Alice", "2024-03-05T12:34:51")]);
        let effects = run_cycle(&mut around, &settings());
        assert!(effects.sent.is_empty());
        assert!(!effects.requests.contains(&"notify"));
        assert!(!effects.requests.contains(&"list subscribers"));
        assert_eq!(effects.outcome, Some(Outcome::Seeded));
        assert_eq!(statuses(&around.state), vec![reading == Some(1)]);
    }
}

#[test]
fn first_cycle_with_a_failing_write_reports_it() {
    let mut around = surroundings(Some(1));
    around.state_store_read_only = true;
    let effects = run_cycle(&mut around, &settings());
    assert_eq!(effects.requests, vec!["fetch state", "read last", "append open", "stop"]);
    assert_eq!(effects.outcome, Some(Outcome::SeedFailed));
    assert!(effects.sent.is_empty());
    assert_eq!(around.state.len(), 0);
}

#[test]
fn opening_is_attributed_and_sent_to_all() {
    let mut around = with_subscribers(with_last_status(false, Some(1)), &[10, 20, 30]);
    around.history = Some(vec![record("Alice", "2024-03-05T12:34:51")]);
    let effects = run_cycle(&mut around, &settings());
    assert_eq!(
        effects.requests,
        vec![
            "fetch state",
            "read last",
            "append open",
            "fetch history",
            "list subscribers",
            "notify"
        ]
    );
    let message = String::from("Il laboratorio è stato aperto alle 12:34:56 del 05/03/2024 da Alice");
    assert_eq!(
        effects.sent,
        vec![(10, message.clone()), (20, message.clone()), (30, message.clone())]
    );
    assert_eq!(effects.report, Some(DeliveryReport { attempted: 3, delivered: 3, failed: 0 }));
    assert_eq!(statuses(&around.state), vec![false, true]);
    assert_eq!(
        around.state.last_observation(),
        Ok(Some(StateObservation { id: 2, status: true, observed_at: noon() }))
    );
}

#[test]
fn opening_without_fresh_activity_names_nobody() {
    let stale = vec![record("Alice", "2024-03-05T12:34:26")];
    for history in [None, Some(Vec::new()), Some(stale), Some(vec![record("Alice", "soon")])] {
        let mut around = with_subscribers(with_last_status(false, Some(1)), &[10]);
        around.history = history;
        let effects = run_cycle(&mut around, &settings());
        assert_eq!(
            effects.sent,
            vec![(10, String::from("Il laboratorio è stato aperto alle 12:34:56 del 05/03/2024"))]
        );
    }
}

#[test]
fn an_unchanged_status_has_no_side_effects() {
    let mut around = with_subscribers(with_last_status(true, Some(1)), &[10, 20]);
    around.history = Some(vec![record("Alice", "2024-03-05T12:34:51")]);
    let before = around.state.observations();
    let effects = run_cycle(&mut around, &settings());
    assert_eq!(effects.requests, vec!["fetch state", "read last", "stop"]);
    assert_eq!(effects.outcome, Some(Outcome::Unchanged));
    assert!(effects.sent.is_empty());
    assert_eq!(around.state.observations(), before);
}

#[test]
fn an_unchanged_closed_status_has_no_side_effects() {
    for reading in [None, Some(0), Some(7)] {
        let mut around = with_subscribers(with_last_status(false, reading), &[10, 20]);
        let effects = run_cycle(&mut around, &settings());
        assert_eq!(effects.requests, vec!["fetch state", "read last", "stop"]);
        assert_eq!(effects.outcome, Some(Outcome::Unchanged));
        assert!(effects.sent.is_empty());
        assert_eq!(around.state.len(), 1);
    }
}

#[test]
fn a_failed_fetch_closes_an_open_facility() {
    let mut around = with_subscribers(with_last_status(true, None), &[10, 20]);
    around.history = Some(vec![record("Alice", "2024-03-05T12:34:51")]);
    let effects = run_cycle(&mut around, &settings());
    let message = String::from("Il laboratorio è stato chiuso alle 12:34:56 del 05/03/2024");
    assert_eq!(effects.sent, vec![(10, message.clone()), (20, message)]);
    assert_eq!(statuses(&around.state), vec![true, false]);
}

#[test]
fn a_failed_write_does_not_hold_back_the_notification() {
    let mut around = with_subscribers(with_last_status(false, Some(1)), &[10, 20]);
    around.state_store_read_only = true;
    let effects = run_cycle(&mut around, &settings());
    assert_eq!(
        effects.requests,
        vec![
            "fetch state",
            "read last",
            "append open",
            "fetch history",
            "list subscribers",
            "notify"
        ]
    );
    assert_eq!(effects.sent.len(), 2);
    assert_eq!(statuses(&around.state), vec![false]);
}

#[test]
fn an_unreadable_store_is_not_taken_for_an_empty_one() {
    let mut around = with_subscribers(with_last_status(false, Some(1)), &[10]);
    around.state_store_unreadable = true;
    let effects = run_cycle(&mut around, &settings());
    assert_eq!(effects.requests, vec!["fetch state", "read last", "stop"]);
    assert_eq!(effects.outcome, Some(Outcome::StoreUnreadable));
    assert!(effects.sent.is_empty());
    assert_eq!(statuses(&around.state), vec![false]);
}

#[test]
fn no_subscriber_list_means_no_notification() {
    let mut around = with_subscribers(with_last_status(false, Some(1)), &[10]);
    around.subscriber_store_unreadable = true;
    let effects = run_cycle(&mut around, &settings());
    assert_eq!(effects.outcome, Some(Outcome::NoAudience));
    assert!(effects.sent.is_empty());
    assert_eq!(statuses(&around.state), vec![false, true]);
}

#[test]
fn a_transition_without_subscribers_notifies_nobody() {
    let mut around = with_last_status(false, Some(1));
    let effects = run_cycle(&mut around, &settings());
    assert_eq!(effects.requests.last(), Some(&"notify"));
    assert!(effects.sent.is_empty());
    assert_eq!(effects.report, Some(DeliveryReport { attempted: 0, delivered: 0, failed: 0 }));
}

#[test]
fn an_unreachable_subscriber_does_not_keep_the_others_waiting() {
    for unreachable in [10, 20, 30] {
        let mut around = with_subscribers(with_last_status(false, Some(1)), &[10, 20, 30]);
        around.unreachable = vec![unreachable];
        let effects = run_cycle(&mut around, &settings());
        let reached: Vec<i64> = effects.sent.iter().map(|(target, _)| *target).collect();
        let expected: Vec<i64> = [10, 20, 30].into_iter().filter(|t| *t != unreachable).collect();
        assert_eq!(reached, expected);
        assert_eq!(effects.report, Some(DeliveryReport { attempted: 3, delivered: 2, failed: 1 }));
    }
}

#[test]
fn alternating_statuses_append_once_per_flip() {
    let mut around = with_subscribers(surroundings(Some(1)), &[10]);
    let settings = settings();
    let readings = [Some(1), Some(0), Some(1), None, Some(1), Some(3)];
    let mut notifications = 0;
    for (i, reading) in readings.iter().enumerate() {
        around.reading = *reading;
        let effects = run_cycle(&mut around, &settings);
        assert_eq!(around.state.len(), i + 1);
        notifications += effects.sent.len();
    }
    assert_eq!(statuses(&around.state), vec![true, false, true, false, true, false]);
    assert_eq!(notifications, readings.len() - 1);
}

#[test]
fn repeated_statuses_append_nothing() {
    let mut around = with_subscribers(surroundings(Some(1)), &[10]);
    let settings = settings();
    let readings = [Some(1), Some(1), Some(1), Some(0), None, Some(9), Some(1), Some(1)];
    let mut notifications = 0;
    for reading in readings {
        around.reading = reading;
        notifications += run_cycle(&mut around, &settings).sent.len();
    }
    assert_eq!(statuses(&around.state), vec![true, false, true]);
    assert_eq!(notifications, 2);
    let ids: Vec<i64> = around.state.observations().iter().map(|o| o.id).collect();
    assert_eq!(ids, vec![1, 2, 3]);
}

#[test]
fn a_reply_out_of_turn_ends_the_cycle() {
    let settings = settings();
    let stop = Request::Stop { outcome: Outcome::OutOfTurn };
    assert_eq!(
        step(Phase::Fetching, Reply::Appended { written: Ok(()) }, &settings),
        (Phase::Finished, stop.clone())
    );
    assert_eq!(
        step(Phase::Comparing { current: true }, Reply::State { reading: Some(1) }, &settings),
        (Phase::Finished, stop.clone())
    );
    assert_eq!(
        step(Phase::Seeding, Reply::Subscribers { listed: Ok(Vec::new()) }, &settings),
        (Phase::Finished, stop.clone())
    );
    assert_eq!(
        step(Phase::Listing { message: String::from("m") }, Reply::State { reading: None }, &settings),
        (Phase::Finished, stop.clone())
    );
    assert_eq!(
        step(Phase::Finished, Reply::State { reading: Some(1) }, &settings),
        (Phase::Finished, stop)
    );
}

#[test]
fn an_opening_in_june_is_credited_to_alice() {
    // 2024-06-01T12:00:05+02:00, five seconds after the event.
    let now = Timestamp::new(1_717_236_005, 0, 7_200).expect("a timestamp within range");
    let mut around = with_subscribers(surroundings(Some(1)), &[10, 20]);
    around.state.append_observation(false, now).expect("room");
    around.now = now;
    around.history = Some(vec![record("Alice", "2024-06-01T12:00:00")]);
    let effects = run_cycle(&mut around, &settings());
    let message =
        String::from("Il laboratorio è stato aperto alle 12:00:05 del 01/06/2024 da Alice");
    assert_eq!(effects.sent, vec![(10, message.clone()), (20, message)]);
    assert_eq!(statuses(&around.state), vec![false, true]);
}
