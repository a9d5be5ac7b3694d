use presencebot::model::Subscriber;
use presencebot::notifier::{DeliveryReport, Fanout};

fn subscribers(external_ids: &[i64]) -> Vec<Subscriber> {
    let mut list = Vec::new();
    for (i, external_id) in external_ids.iter().enumerate() {
        list.push(Subscriber { id: i as i64 + 1, external_id: *external_id });
    }
    list
}

/// Delivers to everybody but those in `failing`; returns the targets tried and those reached.
fn deliver(fanout: &mut Fanout, failing: &[i64]) -> (Vec<i64>, Vec<i64>) {
    let mut tried = Vec::new();
    let mut reached = Vec::new();
    while let Some(target) = fanout.next_target() {
        tried.push(target);
        let delivered = !failing.contains(&target);
        if delivered {
            reached.push(target);
        }
        fanout.record(delivered);
    }
    (tried, reached)
}

#[test]
fn fanout_to_nobody_is_complete_at_once() {
    let fanout = Fanout::new(String::from("hello"), &Vec::new());
    assert!(fanout.is_complete());
    assert_eq!(fanout.next_target(), None);
    assert_eq!(fanout.report(), DeliveryReport { attempted: 0, delivered: 0, failed: 0 });
}

#[test]
fn fanout_keeps_the_message() {
    let fanout = Fanout::new(String::from("Il laboratorio è stato chiuso"), &subscribers(&[1]));
    assert_eq!(fanout.message(), "Il laboratorio è stato chiuso");
}

#[test]
fn fanout_visits_the_subscribers_in_order() {
    let mut fanout = Fanout::new(String::from("m"), &subscribers(&[30, 10, 20]));
    assert!(!fanout.is_complete());
    assert_eq!(fanout.next_target(), Some(30));
    assert_eq!(fanout.next_target(), Some(30));
    fanout.record(true);
    assert_eq!(fanout.next_target(), Some(10));
    fanout.record(true);
    assert_eq!(fanout.next_target(), Some(20));
    assert!(!fanout.is_complete());
    fanout.record(true);
    assert_eq!(fanout.next_target(), None);
    assert!(fanout.is_complete());
    assert_eq!(fanout.report(), DeliveryReport { attempted: 3, delivered: 3, failed: 0 });
}

#[test]
fn one_failure_does_not_stop_the_fanout() {
    for failing in [11, 22, 33, 44] {
        let mut fanout = Fanout::new(String::from("m"), &subscribers(&[11, 22, 33, 44]));
        let (tried, reached) = deliver(&mut fanout, &[failing]);
        assert_eq!(tried, vec![11, 22, 33, 44]);
        assert_eq!(reached.len(), 3);
        assert!(!reached.contains(&failing));
        assert_eq!(fanout.report(), DeliveryReport { attempted: 4, delivered: 3, failed: 1 });
    }
}

#[test]
fn deliveries_are_all_but_the_failures() {
    let mut fanout = Fanout::new(String::from("m"), &subscribers(&[1, 2, 3, 4, 5]));
    let (tried, reached) = deliver(&mut fanout, &[1, 3, 5]);
    assert_eq!(tried, vec![1, 2, 3, 4, 5]);
    assert_eq!(reached, vec![2, 4]);
    assert_eq!(fanout.report(), DeliveryReport { attempted: 5, delivered: 2, failed: 3 });
}

#[test]
fn fanout_goes_on_when_every_delivery_fails() {
    let mut fanout = Fanout::new(String::from("m"), &subscribers(&[1, 2, 3]));
    let (tried, reached) = deliver(&mut fanout, &[1, 2, 3]);
    assert_eq!(tried, vec![1, 2, 3]);
    assert!(reached.is_empty());
    assert_eq!(fanout.report(), DeliveryReport { attempted: 3, delivered: 0, failed: 3 });
}

#[test]
fn report_counts_what_was_recorded_so_far() {
    let mut fanout = Fanout::new(String::from("m"), &subscribers(&[1, 2, 3]));
    assert_eq!(fanout.report(), DeliveryReport { attempted: 0, delivered: 0, failed: 0 });
    fanout.record(false);
    assert_eq!(fanout.report(), DeliveryReport { attempted: 1, delivered: 0, failed: 1 });
    fanout.record(true);
    assert_eq!(fanout.report(), DeliveryReport { attempted: 2, delivered: 1, failed: 1 });
}

#[test]
fn record_on_a_complete_fanout_changes_nothing() {
    let mut fanout = Fanout::new(String::from("m"), &subscribers(&[1]));
    fanout.record(true);
    fanout.record(false);
    fanout.record(true);
    assert_eq!(fanout.report(), DeliveryReport { attempted: 1, delivered: 1, failed: 0 });
    assert_eq!(fanout.next_target(), None);
}
