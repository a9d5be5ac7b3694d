//! The set of notification targets, held in memory.
//!
//! The store answers as a durable one does: an external id is stored at most once,
//! and a repeated request to add it is told apart from a failure.

use crate::model::{AddOutcome, StorageError, Subscriber};
use vstd::prelude::*;

verus! {

/// The sequence number of the first subscriber of a store.
pub const FIRST_SUBSCRIBER_ID: i64 = 1;

/// Whether some subscriber of `rows` has the given external id.
pub open spec fn is_subscribed(rows: Seq<Subscriber>, external_id: i64) -> bool {
    exists|i: int| 0 <= i < rows.len() && (#[trigger] rows[i]).external_id == external_id
}

/// Whether no external id occurs twice in `rows`, and the sequence numbers grow from
/// each subscriber to the next.
pub open spec fn is_registry(rows: Seq<Subscriber>) -> bool {
    &&& forall|i: int, j: int|
        0 <= i < j < rows.len() ==> (#[trigger] rows[i]).external_id != (
        #[trigger] rows[j]).external_id
    &&& forall|i: int, j: int|
        0 <= i < j < rows.len() ==> (#[trigger] rows[i]).id < (#[trigger] rows[j]).id
}

/// Whether the store can give out one more sequence number.
pub open spec fn can_grow(rows: Seq<Subscriber>) -> bool {
    rows.len() == 0 || rows.last().id < i64::MAX
}

/// The sequence number that the next new subscriber gets.
pub open spec fn next_subscriber_id(rows: Seq<Subscriber>) -> int {
    if rows.len() == 0 {
        FIRST_SUBSCRIBER_ID as int
    } else {
        rows.last().id + 1
    }
}

/// What a request to add `external_id` answers on a store that holds `rows`.
pub open spec fn add_outcome(
    rows: Seq<Subscriber>,
    external_id: i64,
) -> Result<AddOutcome, StorageError> {
    if is_subscribed(rows, external_id) {
        Ok(AddOutcome::AlreadyExists)
    } else if can_grow(rows) {
        Ok(AddOutcome::Inserted)
    } else {
        Err(StorageError::Constraint)
    }
}

/// What a store that holds `rows` holds after a request to add `external_id`.
pub open spec fn with_subscriber(rows: Seq<Subscriber>, external_id: i64) -> Seq<Subscriber> {
    if add_outcome(rows, external_id) == Ok::<AddOutcome, StorageError>(AddOutcome::Inserted) {
        rows.push(Subscriber { id: next_subscriber_id(rows) as i64, external_id })
    } else {
        rows
    }
}

/// Whether exactly one subscriber of `rows` has the given external id.
pub open spec fn stored_once(rows: Seq<Subscriber>, external_id: i64) -> bool {
    exists|i: int|
        0 <= i < rows.len() && (#[trigger] rows[i]).external_id == external_id && forall|j: int|
            0 <= j < rows.len() && (#[trigger] rows[j]).external_id == external_id ==> j == i
}

/// Looks for an external id among the first `end` subscribers of a list.
fn occurs_in(rows: &Vec<Subscriber>, end: usize, external_id: i64) -> (found: bool)
    requires
        end <= rows.len(),
    ensures
        found == is_subscribed(rows@.take(end as int), external_id),
{
    let mut i: usize = 0;
    while i < end
        invariant
            0 <= i <= end <= rows.len(),
            forall|k: int| 0 <= k < i ==> (#[trigger] rows@[k]).external_id != external_id,
        decreases end - i,
    {
        if rows[i].external_id == external_id {
            assert(rows@.take(end as int)[i as int].external_id == external_id);
            return true;
        }
        i += 1;
    }
    assert forall|k: int| 0 <= k < end implies (#[trigger] rows@.take(end as int)[k]).external_id
        != external_id by {
        assert(rows@.take(end as int)[k] == rows@[k]);
    }
    false
}

/// The subscribers in memory, each reachable under an external id that no other has.
#[derive(Debug)]
pub struct SubscriberStore {
    rows: Vec<Subscriber>,
}

impl View for SubscriberStore {
    type V = Seq<Subscriber>;

    closed spec fn view(&self) -> Seq<Subscriber> {
        self.rows@
    }
}

impl SubscriberStore {
    #[verifier::type_invariant]
    spec fn well_formed(self) -> bool {
        is_registry(self.rows@)
    }

    /// A store without subscribers.
    pub fn new() -> (store: SubscriberStore)
        ensures
            store@ == Seq::<Subscriber>::empty(),
    {
        SubscriberStore { rows: Vec::new() }
    }

    /// A store over subscribers that were persisted before, in the order in which
    /// they were added.
    ///
    /// Fails with [`StorageError::Constraint`] exactly where an external id occurs
    /// twice or the sequence numbers do not grow.
    pub fn restore(subscribers: Vec<Subscriber>) -> (res: Result<SubscriberStore, StorageError>)
        ensures
            is_registry(subscribers@) ==> (res matches Ok(store) && store@ == subscribers@),
            !is_registry(subscribers@) ==> res == Err::<SubscriberStore, StorageError>(
                StorageError::Constraint,
            ),
    {
        let mut i: usize = 0;
        while i < subscribers.len()
            invariant
                0 <= i <= subscribers.len(),
                is_registry(subscribers@.take(i as int)),
            decreases subscribers.len() - i,
        {
            let ghost seen = subscribers@.take(i as int);
            if i > 0 && subscribers[i - 1].id >= subscribers[i].id {
                proof {
                    if is_registry(subscribers@) {
                        assert(subscribers@[i - 1].id < subscribers@[i as int].id);
                    }
                }
                return Err(StorageError::Constraint);
            }
            if occurs_in(&subscribers, i, subscribers[i].external_id) {
                proof {
                    let j = choose|j: int|
                        0 <= j < seen.len() && (#[trigger] seen[j]).external_id
                            == subscribers@[i as int].external_id;
                    assert(seen[j] == subscribers@[j]);
                    if is_registry(subscribers@) {
                        assert(subscribers@[j].external_id != subscribers@[i as int].external_id);
                    }
                }
                return Err(StorageError::Constraint);
            }
            proof {
                let longer = subscribers@.take(i + 1);
                assert forall|k: int, j: int| 0 <= k < j < longer.len() implies (
                #[trigger] longer[k]).external_id != (#[trigger] longer[j]).external_id by {
                    assert(longer[k] == seen[k]);
                    if j < i {
                        assert(longer[j] == seen[j]);
                    }
                }
                assert forall|k: int, j: int| 0 <= k < j < longer.len() implies (
                #[trigger] longer[k]).id < (#[trigger] longer[j]).id by {
                    assert(longer[k] == seen[k]);
                    if j < i {
                        assert(longer[j] == seen[j]);
                    } else {
                        assert(seen[i - 1] == subscribers@[i - 1]);
                        if k < i - 1 {
                            assert(seen[k].id < seen[i - 1].id);
                        }
                    }
                }
            }
            i += 1;
        }
        assert(subscribers@.take(i as int) == subscribers@);
        Ok(SubscriberStore { rows: subscribers })
    }

    /// Whether a subscriber with this external id is stored.
    pub fn contains(&self, external_id: i64) -> (found: bool)
        ensures
            found == is_subscribed(self@, external_id),
    {
        let found = occurs_in(&self.rows, self.rows.len(), external_id);
        assert(self.rows@.take(self.rows@.len() as int) == self.rows@);
        found
    }

    /// Adds a subscriber under `external_id`, unless one is stored under it.
    ///
    /// A new subscriber gets the next sequence number and [`AddOutcome::Inserted`]
    /// is returned. Where the external id is stored already, nothing changes and
    /// [`AddOutcome::AlreadyExists`] is returned, however often the call is
    /// repeated. Fails with [`StorageError::Constraint`], and stores nothing,
    /// exactly where the subscriber is new and the sequence numbers are used up.
    pub fn add_subscriber(&mut self, external_id: i64) -> (res: Result<AddOutcome, StorageError>)
        ensures
            res == add_outcome(old(self)@, external_id),
            final(self)@ == with_subscriber(old(self)@, external_id),
            is_registry(final(self)@),
    {
        proof {
            use_type_invariant(&*self);
        }
        if self.contains(external_id) {
            return Ok(AddOutcome::AlreadyExists);
        }
        let n = self.rows.len();
        let id: i64 = if n == 0 {
            FIRST_SUBSCRIBER_ID
        } else {
            let last_id = self.rows[n - 1].id;
            if last_id == i64::MAX {
                return Err(StorageError::Constraint);
            }
            last_id + 1
        };
        let mut rows: Vec<Subscriber> = Vec::new();
        core::mem::swap(&mut self.rows, &mut rows);
        rows.push(Subscriber { id, external_id });
        core::mem::swap(&mut self.rows, &mut rows);
        Ok(AddOutcome::Inserted)
    }

    /// All subscribers, in the order in which they were added.
    pub fn all_subscribers(&self) -> (res: Result<Vec<Subscriber>, StorageError>)
        ensures
            res matches Ok(rows) && rows@ == self@,
            is_registry(self@),
    {
        proof {
            use_type_invariant(self);
        }
        Ok(self.rows.clone())
    }

    /// How many subscribers are stored.
    pub fn len(&self) -> (n: usize)
        ensures
            n == self@.len(),
    {
        self.rows.len()
    }
}

/// Adding a subscriber is idempotent.
///
/// Where the first request for an external id is answered, a second request for it
/// is answered with [`AddOutcome::AlreadyExists`] and leaves the store as the first
/// left it, with exactly one subscriber under that id. The store stays a registry
/// in any case.
pub proof fn law_add_subscriber_is_idempotent(rows: Seq<Subscriber>, external_id: i64)
    requires
        is_registry(rows),
    ensures
        is_registry(with_subscriber(rows, external_id)),
        with_subscriber(with_subscriber(rows, external_id), external_id) == with_subscriber(
            rows,
            external_id,
        ),
        add_outcome(rows, external_id) is Ok ==> add_outcome(
            with_subscriber(rows, external_id),
            external_id,
        ) == Ok::<AddOutcome, StorageError>(AddOutcome::AlreadyExists),
        add_outcome(rows, external_id) is Ok ==> stored_once(
            with_subscriber(rows, external_id),
            external_id,
        ),
{
    let once = with_subscriber(rows, external_id);
    if is_subscribed(rows, external_id) {
        let i = choose|i: int| 0 <= i < rows.len() && (#[trigger] rows[i]).external_id == external_id;
        assert(rows[i].external_id == external_id);
        assert forall|j: int|
            0 <= j < rows.len() && (#[trigger] rows[j]).external_id == external_id implies j
            == i by {
            if j < i {
                assert(rows[j].external_id != rows[i].external_id);
            } else if i < j {
                assert(rows[i].external_id != rows[j].external_id);
            }
        }
    } else if can_grow(rows) {
        let n = rows.len() as int;
        assert(once.len() == n + 1);
        assert(once[n].external_id == external_id);
        assert(is_subscribed(once, external_id));
        assert forall|i: int, j: int| 0 <= i < j < once.len() implies (
        #[trigger] once[i]).external_id != (#[trigger] once[j]).external_id by {
            if j < n {
                assert(once[i] == rows[i] && once[j] == rows[j]);
            } else {
                assert(once[i] == rows[i]);
            }
        }
        assert forall|i: int, j: int| 0 <= i < j < once.len() implies (#[trigger] once[i]).id < (
        #[trigger] once[j]).id by {
            if j < n {
                assert(once[i] == rows[i] && once[j] == rows[j]);
            } else {
                assert(once[i] == rows[i]);
                if i < n - 1 {
                    assert(rows[i].id < rows[n - 1].id);
                }
            }
        }
        assert forall|j: int|
            0 <= j < once.len() && (#[trigger] once[j]).external_id == external_id implies j
            == n by {
            if j < n {
                assert(once[j] == rows[j]);
            }
        }
    }
}

} // verus!
