//! The log of state observations, held in memory.
//!
//! The store answers as a durable one does: it only ever appends, and it tells a
//! log that holds nothing from one that cannot be served.

use crate::clock::Timestamp;
use crate::model::{StateObservation, StorageError};
use vstd::prelude::*;

verus! {

/// The sequence number of the first observation of a log.
pub const FIRST_ID: i64 = 1;

/// Whether a log is in the order in which it was written: sequence numbers start at
/// [`FIRST_ID`] or above and grow from each observation to the next.
pub open spec fn in_history_order(log: Seq<StateObservation>) -> bool {
    &&& forall|i: int| 0 <= i < log.len() ==> FIRST_ID <= (#[trigger] log[i]).id
    &&& forall|i: int, j: int| 0 <= i < j < log.len() ==> (#[trigger] log[i]).id < (#[trigger] log[j]).id
}

/// The most recent observation of a log, if it has any.
pub open spec fn latest(log: Seq<StateObservation>) -> Option<StateObservation> {
    if log.len() == 0 {
        None
    } else {
        Some(log.last())
    }
}

/// Whether a log can take one more observation: the sequence numbers are not used
/// up.
pub open spec fn has_room(log: Seq<StateObservation>) -> bool {
    log.len() == 0 || log.last().id < i64::MAX
}

/// The sequence number that the next observation of a log gets.
pub open spec fn next_id(log: Seq<StateObservation>) -> int {
    if log.len() == 0 {
        FIRST_ID as int
    } else {
        log.last().id + 1
    }
}

/// The log after an observation of `status`, made at `now`, was appended to it. A
/// log without room stays as it is.
pub open spec fn appended(
    log: Seq<StateObservation>,
    status: bool,
    now: Timestamp,
) -> Seq<StateObservation> {
    if has_room(log) {
        log.push(StateObservation { id: next_id(log) as i64, status, observed_at: now })
    } else {
        log
    }
}

/// The observation that a stored row stands for.
///
/// The row's time is read as RFC 3339. A row whose time cannot be read breaks what
/// the store promises of its rows and gives [`StorageError::Constraint`].
pub fn observation_from_row(
    id: i64,
    status: bool,
    timestamp: &str,
) -> (res: Result<StateObservation, StorageError>)
    ensures
        res == match Timestamp::parsed(timestamp@) {
            Some(at) => Ok::<StateObservation, StorageError>(
                StateObservation { id, status, observed_at: at },
            ),
            None => Err::<StateObservation, StorageError>(StorageError::Constraint),
        },
{
    match Timestamp::parse_rfc3339(timestamp) {
        Some(at) => Ok(StateObservation { id, status, observed_at: at }),
        None => Err(StorageError::Constraint),
    }
}

/// An append-only log of state observations in memory, most recent last.
#[derive(Debug)]
pub struct StateStore {
    log: Vec<StateObservation>,
}

impl View for StateStore {
    type V = Seq<StateObservation>;

    closed spec fn view(&self) -> Seq<StateObservation> {
        self.log@
    }
}

impl StateStore {
    #[verifier::type_invariant]
    spec fn well_formed(self) -> bool {
        in_history_order(self.log@)
    }

    /// A store in which nothing was ever observed.
    pub fn new() -> (store: StateStore)
        ensures
            store@ == Seq::<StateObservation>::empty(),
    {
        StateStore { log: Vec::new() }
    }

    /// A store over observations that were persisted before, oldest first.
    ///
    /// Fails with [`StorageError::Constraint`] exactly where the observations are not
    /// in the order in which a store writes them.
    pub fn restore(observations: Vec<StateObservation>) -> (res: Result<StateStore, StorageError>)
        ensures
            in_history_order(observations@) ==> (res matches Ok(store) && store@ == observations@),
            !in_history_order(observations@) ==> res == Err::<StateStore, StorageError>(
                StorageError::Constraint,
            ),
    {
        let mut i: usize = 0;
        while i < observations.len()
            invariant
                0 <= i <= observations.len(),
                in_history_order(observations@.take(i as int)),
            decreases observations.len() - i,
        {
            let id = observations[i].id;
            let follows = if i == 0 {
                FIRST_ID <= id
            } else {
                observations[i - 1].id < id
            };
            if !follows {
                proof {
                    if in_history_order(observations@) {
                        if i > 0 {
                            assert(observations@[i - 1].id < observations@[i as int].id);
                        } else {
                            assert(FIRST_ID <= observations@[i as int].id);
                        }
                    }
                }
                return Err(StorageError::Constraint);
            }
            proof {
                let shorter = observations@.take(i as int);
                let longer = observations@.take(i + 1);
                assert forall|k: int| 0 <= k < longer.len() implies FIRST_ID <= (
                #[trigger] longer[k]).id by {
                    if k < i {
                        assert(longer[k] == shorter[k]);
                    } else if i > 0 {
                        assert(shorter[i - 1] == observations@[i - 1]);
                    }
                }
                assert forall|k: int, j: int| 0 <= k < j < longer.len() implies (
                #[trigger] longer[k]).id < (#[trigger] longer[j]).id by {
                    if j < i {
                        assert(longer[k] == shorter[k]);
                        assert(longer[j] == shorter[j]);
                    } else {
                        assert(shorter[i - 1] == observations@[i - 1]);
                        if k < i - 1 {
                            assert(shorter[k].id < shorter[i - 1].id);
                        }
                    }
                }
            }
            i += 1;
        }
        assert(observations@.take(i as int) == observations@);
        Ok(StateStore { log: observations })
    }

    /// Writes a new observation of `status`, made at `now`.
    ///
    /// The observation gets the next sequence number and becomes the last of the
    /// log; what was written before stays as it is. Fails with
    /// [`StorageError::Constraint`], and writes nothing, exactly where the sequence
    /// numbers are used up.
    pub fn append_observation(
        &mut self,
        status: bool,
        now: Timestamp,
    ) -> (res: Result<(), StorageError>)
        ensures
            final(self)@ == appended(old(self)@, status, now),
            in_history_order(final(self)@),
            res is Ok <==> has_room(old(self)@),
            res is Err ==> res == Err::<(), StorageError>(StorageError::Constraint),
    {
        proof {
            use_type_invariant(&*self);
        }
        let n = self.log.len();
        let id: i64 = if n == 0 {
            FIRST_ID
        } else {
            let last_id = self.log[n - 1].id;
            if last_id == i64::MAX {
                return Err(StorageError::Constraint);
            }
            last_id + 1
        };
        let mut log: Vec<StateObservation> = Vec::new();
        core::mem::swap(&mut self.log, &mut log);
        log.push(StateObservation { id, status, observed_at: now });
        core::mem::swap(&mut self.log, &mut log);
        Ok(())
    }

    /// The most recent observation, or `None` exactly where none was ever written.
    pub fn last_observation(&self) -> (res: Result<Option<StateObservation>, StorageError>)
        ensures
            res == Ok::<Option<StateObservation>, StorageError>(latest(self@)),
            in_history_order(self@),
    {
        proof {
            use_type_invariant(self);
        }
        let n = self.log.len();
        if n == 0 {
            Ok(None)
        } else {
            Ok(Some(self.log[n - 1]))
        }
    }

    /// How many observations the log holds.
    pub fn len(&self) -> (n: usize)
        ensures
            n == self@.len(),
    {
        self.log.len()
    }

    /// The observations, oldest first.
    pub fn observations(&self) -> (res: Vec<StateObservation>)
        ensures
            res@ == self@,
            in_history_order(self@),
    {
        proof {
            use_type_invariant(self);
        }
        self.log.clone()
    }
}

} // verus!
