//! Fan-out of one message to every subscriber.

use crate::model::Subscriber;
use vstd::prelude::*;

verus! {

/// The external ids of a list of subscribers, in the list's order.
pub open spec fn external_ids(subscribers: Seq<Subscriber>) -> Seq<i64> {
    subscribers.map_values(|s: Subscriber| s.external_id)
}

/// How many of the recorded deliveries succeeded.
pub open spec fn successes(outcomes: Seq<bool>) -> nat
    decreases outcomes.len(),
{
    if outcomes.len() == 0 {
        0
    } else {
        successes(outcomes.drop_last()) + if outcomes.last() {
            1nat
        } else {
            0nat
        }
    }
}

/// How many of the recorded deliveries failed.
pub open spec fn failures(outcomes: Seq<bool>) -> nat
    decreases outcomes.len(),
{
    if outcomes.len() == 0 {
        0
    } else {
        failures(outcomes.drop_last()) + if outcomes.last() {
            0nat
        } else {
            1nat
        }
    }
}

/// A fan-out as a mathematical value.
pub struct FanoutView {
    /// The text that every subscriber is to receive.
    pub message: Seq<char>,
    /// The external ids to deliver to, in order.
    pub targets: Seq<i64>,
    /// How the deliveries made so far ended, in the order of the targets.
    pub outcomes: Seq<bool>,
}

impl FanoutView {
    /// Whether every target has had its delivery.
    pub open spec fn complete(self) -> bool {
        self.outcomes.len() >= self.targets.len()
    }

    /// The target of the next delivery, or `None` once every target has had its
    /// own.
    pub open spec fn pending(self) -> Option<i64> {
        if self.complete() {
            None
        } else {
            Some(self.targets[self.outcomes.len() as int])
        }
    }

    /// The fan-out after the pending delivery ended as `delivered` says. A complete
    /// fan-out stays as it is.
    pub open spec fn recorded(self, delivered: bool) -> FanoutView {
        if self.complete() {
            self
        } else {
            FanoutView { outcomes: self.outcomes.push(delivered), ..self }
        }
    }

    /// The fan-out after one delivery for each entry of `results`, in order, each
    /// recorded whatever the ones before it came to.
    pub open spec fn recorded_all(self, results: Seq<bool>) -> FanoutView
        decreases results.len(),
    {
        if results.len() == 0 {
            self
        } else {
            self.recorded_all(results.drop_last()).recorded(results.last())
        }
    }
}

/// Every subscriber gets its attempt, whatever became of the others.
///
/// Start a fan-out to `n` targets and let the deliveries end as `results` says, one
/// entry for each target. Then the fan-out is complete, the recorded outcomes are
/// `results`, the delivery that followed the first `k` outcomes went to target `k`
/// whether those outcomes were failures or not, and the successful deliveries
/// number `n` less the failed ones.
pub proof fn law_fanout_reaches_every_subscriber(fanout: FanoutView, results: Seq<bool>)
    requires
        fanout.outcomes.len() == 0,
        results.len() == fanout.targets.len(),
    ensures
        fanout.recorded_all(results).complete(),
        fanout.recorded_all(results).outcomes == results,
        fanout.recorded_all(results).targets == fanout.targets,
        fanout.recorded_all(results).message == fanout.message,
        forall|k: int|
            0 <= k < results.len() ==> (#[trigger] fanout.recorded_all(results.take(k))).pending()
                == Some(fanout.targets[k]),
        successes(results) == results.len() - failures(results),
{
    lemma_recorded_all(fanout, results);
    lemma_outcomes_add_up(results);
    assert forall|k: int| 0 <= k < results.len() implies (#[trigger] fanout.recorded_all(
        results.take(k),
    )).pending() == Some(fanout.targets[k]) by {
        lemma_recorded_all(fanout, results.take(k));
    }
}

/// Recording no more results than there are targets keeps each of them.
proof fn lemma_recorded_all(fanout: FanoutView, results: Seq<bool>)
    requires
        fanout.outcomes.len() == 0,
        results.len() <= fanout.targets.len(),
    ensures
        fanout.recorded_all(results).outcomes == results,
        fanout.recorded_all(results).targets == fanout.targets,
        fanout.recorded_all(results).message == fanout.message,
    decreases results.len(),
{
    if results.len() == 0 {
        assert(fanout.outcomes == results);
    } else {
        lemma_recorded_all(fanout, results.drop_last());
        assert(results.drop_last().push(results.last()) == results);
    }
}

/// Each recorded delivery either succeeded or failed.
proof fn lemma_outcomes_add_up(outcomes: Seq<bool>)
    ensures
        successes(outcomes) + failures(outcomes) == outcomes.len(),
    decreases outcomes.len(),
{
    if outcomes.len() > 0 {
        lemma_outcomes_add_up(outcomes.drop_last());
    }
}

/// What a fan-out came to.
#[derive(Clone, Copy, Debug, PartialEq, Eq)]
pub struct DeliveryReport {
    /// Deliveries that were tried.
    pub attempted: usize,
    /// Deliveries that succeeded.
    pub delivered: usize,
    /// Deliveries that failed.
    pub failed: usize,
}

/// The delivery of one message to a list of subscribers, one attempt each.
///
/// The caller asks for the pending target, tries the delivery and records how it
/// ended. A failed delivery is recorded like a successful one and the fan-out moves
/// on to the next target: no failure keeps a later subscriber from its attempt,
/// and no delivery is tried twice.
#[derive(Debug)]
pub struct Fanout {
    message: String,
    targets: Vec<i64>,
    outcomes: Vec<bool>,
}

impl View for Fanout {
    type V = FanoutView;

    closed spec fn view(&self) -> FanoutView {
        FanoutView { message: self.message@, targets: self.targets@, outcomes: self.outcomes@ }
    }
}

impl Fanout {
    #[verifier::type_invariant]
    spec fn well_formed(self) -> bool {
        self.outcomes@.len() <= self.targets@.len()
    }

    /// Starts the fan-out of `message` to `subscribers`, with no delivery made yet.
    pub fn new(message: String, subscribers: &Vec<Subscriber>) -> (fanout: Fanout)
        ensures
            fanout@.message == message@,
            fanout@.targets == external_ids(subscribers@),
            fanout@.outcomes == Seq::<bool>::empty(),
    {
        let mut targets: Vec<i64> = Vec::new();
        let mut i: usize = 0;
        while i < subscribers.len()
            invariant
                0 <= i <= subscribers.len(),
                targets@ == external_ids(subscribers@.take(i as int)),
            decreases subscribers.len() - i,
        {
            targets.push(subscribers[i].external_id);
            proof {
                assert(subscribers@.take(i + 1) == subscribers@.take(i as int).push(
                    subscribers@[i as int],
                ));
            }
            i += 1;
        }
        proof {
            assert(subscribers@.take(i as int) == subscribers@);
        }
        Fanout { message, targets, outcomes: Vec::new() }
    }

    /// The text that is being delivered.
    pub fn message(&self) -> (text: &str)
        ensures
            text@ == self@.message,
    {
        self.message.as_str()
    }

    /// The external id that the next delivery goes to, or `None` once every
    /// subscriber has had its attempt.
    pub fn next_target(&self) -> (target: Option<i64>)
        ensures
            target == self@.pending(),
    {
        let done = self.outcomes.len();
        if done < self.targets.len() {
            Some(self.targets[done])
        } else {
            None
        }
    }

    /// Whether every subscriber has had its attempt.
    pub fn is_complete(&self) -> (done: bool)
        ensures
            done == self@.complete(),
    {
        self.outcomes.len() >= self.targets.len()
    }

    /// Records how the delivery to the pending target ended and moves on to the
    /// next target. On a complete fan-out nothing changes.
    pub fn record(&mut self, delivered: bool)
        ensures
            final(self)@ == old(self)@.recorded(delivered),
    {
        if self.outcomes.len() < self.targets.len() {
            let mut outcomes: Vec<bool> = Vec::new();
            core::mem::swap(&mut self.outcomes, &mut outcomes);
            outcomes.push(delivered);
            core::mem::swap(&mut self.outcomes, &mut outcomes);
        }
    }

    /// Counts the deliveries made so far.
    pub fn report(&self) -> (report: DeliveryReport)
        ensures
            report.attempted == self@.outcomes.len(),
            report.delivered == successes(self@.outcomes),
            report.failed == failures(self@.outcomes),
            report.delivered == report.attempted - report.failed,
            report.attempted <= self@.targets.len(),
    {
        proof {
            use_type_invariant(self);
        }
        let mut delivered: usize = 0;
        let mut failed: usize = 0;
        let mut i: usize = 0;
        while i < self.outcomes.len()
            invariant
                0 <= i <= self.outcomes.len(),
                delivered == successes(self.outcomes@.take(i as int)),
                failed == failures(self.outcomes@.take(i as int)),
                delivered + failed == i,
            decreases self.outcomes.len() - i,
        {
            proof {
                assert(self.outcomes@.take(i + 1).drop_last() == self.outcomes@.take(i as int));
            }
            if self.outcomes[i] {
                delivered += 1;
            } else {
                failed += 1;
            }
            i += 1;
        }
        proof {
            assert(self.outcomes@.take(i as int) == self.outcomes@);
        }
        DeliveryReport { attempted: i, delivered, failed }
    }
}

} // verus!
