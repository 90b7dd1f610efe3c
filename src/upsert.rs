use vstd::prelude::*;

use crate::error::AppError;
use crate::key::{IndexKey, IndexType};
use crate::registry::IndexFactory;

verus! {

/// Where an upsert of one record stands.
#[derive(Debug, Clone, Copy, PartialEq, Eq, Structural)]
pub enum UpsertPhase {
    /// Waiting to learn whether metadata is stored for the id.
    CheckingStored,
    /// Waiting for the vector array of the document.
    ReadingVector,
    /// Waiting for the stale vector to be removed.
    RemovingOld,
    /// Waiting for the new vector to be inserted.
    InsertingVector,
    /// Waiting for the document to be written.
    Persisting,
    /// Over; nothing more happens.
    Finished,
}

/// One upsert in progress: the record id, the index it targets, and what has
/// been learned and done so far.
#[derive(Debug, Clone, Copy, PartialEq, Eq, Structural)]
pub struct Upsert {
    pub id: u64,
    pub key: IndexKey,
    pub phase: UpsertPhase,
    /// Metadata was already stored for the id.
    pub stored: bool,
    /// The stale vector of the id was removed from the index.
    pub old_removed: bool,
}

/// What the caller does next, then answers with the matching event.
#[derive(Debug, PartialEq, Eq)]
pub enum UpsertAction {
    /// Look up whether metadata is stored for the id: answer `Stored`.
    LoadStored,
    /// Remove the id's vector from the index: answer `Removed`.
    RemoveVector,
    /// Take the `vectors` array out of the document: answer `VectorRead`.
    ReadVector,
    /// Insert the vector under the id: answer `Inserted`.
    InsertVector,
    /// Write the document under the id to the scalar store: answer `Persisted`.
    PersistMetadata,
    /// The upsert is over, with this outcome.
    Finish(Result<(), AppError>),
}

/// What the caller learned from the last action.
#[derive(Debug, PartialEq, Eq)]
pub enum UpsertEvent {
    Stored(bool),
    Removed(Result<(), String>),
    /// The number of elements of the vector array; `None` where the document
    /// has no such array or an element is not a number.
    VectorRead(Option<usize>),
    Inserted(Result<(), String>),
    Persisted(Result<(), String>),
}

/// The backend of this algorithm removes vectors by id.
pub open spec fn removes_by_id(t: IndexType) -> bool {
    t == IndexType::FLAT || t == IndexType::USEARCH
}

/// A failure of the backend of `key`, with its message.
pub open spec fn backend_error(key: IndexKey, msg: String) -> AppError {
    match key.index_type {
        IndexType::FLAT => AppError::FaissError(msg),
        IndexType::HNSW => AppError::HnswError(msg),
        IndexType::USEARCH => AppError::UsearchError(msg),
        IndexType::UNKNOWN => AppError::UnsupportedIndexType(key),
    }
}

/// The state after `u`, moved to `phase`.
pub open spec fn moved(u: Upsert, phase: UpsertPhase) -> Upsert {
    Upsert { phase, ..u }
}

/// `(v, a)` is the state and action after `u` learns `e`. An event that does
/// not answer the pending action ends the upsert with an error.
pub open spec fn transition(u: Upsert, e: UpsertEvent, v: Upsert, a: UpsertAction) -> bool {
    match (u.phase, e) {
        (UpsertPhase::CheckingStored, UpsertEvent::Stored(false)) => v == moved(
            u,
            UpsertPhase::ReadingVector,
        ) && a == UpsertAction::ReadVector,
        (UpsertPhase::CheckingStored, UpsertEvent::Stored(true)) => if removes_by_id(
            u.key.index_type,
        ) {
            v == (Upsert { phase: UpsertPhase::ReadingVector, stored: true, ..u }) && a
                == UpsertAction::ReadVector
        } else {
            v == (Upsert { phase: UpsertPhase::Finished, stored: true, ..u }) && (a matches UpsertAction::Finish(
                Err(AppError::UnsupportedOperation(k, _)),
            ) && k == u.key)
        },
        (UpsertPhase::ReadingVector, UpsertEvent::VectorRead(Some(n))) => if n != u.key.dim {
            v == moved(u, UpsertPhase::Finished) && a matches UpsertAction::Finish(
                Err(AppError::ValidationError(_)),
            )
        } else if u.stored {
            v == moved(u, UpsertPhase::RemovingOld) && a == UpsertAction::RemoveVector
        } else {
            v == moved(u, UpsertPhase::InsertingVector) && a == UpsertAction::InsertVector
        },
        (UpsertPhase::ReadingVector, UpsertEvent::VectorRead(None)) => v == moved(
            u,
            UpsertPhase::Finished,
        ) && a matches UpsertAction::Finish(Err(AppError::ValidationError(_))),
        (UpsertPhase::RemovingOld, UpsertEvent::Removed(Ok(()))) => v == (Upsert {
            phase: UpsertPhase::InsertingVector,
            old_removed: true,
            ..u
        }) && a == UpsertAction::InsertVector,
        (UpsertPhase::RemovingOld, UpsertEvent::Removed(Err(msg))) => v == moved(
            u,
            UpsertPhase::Finished,
        ) && a == UpsertAction::Finish(Err(backend_error(u.key, msg))),
        (UpsertPhase::InsertingVector, UpsertEvent::Inserted(Ok(()))) => v == moved(
            u,
            UpsertPhase::Persisting,
        ) && a == UpsertAction::PersistMetadata,
        (UpsertPhase::InsertingVector, UpsertEvent::Inserted(Err(msg))) => v == moved(
            u,
            UpsertPhase::Finished,
        ) && a == UpsertAction::Finish(Err(backend_error(u.key, msg))),
        (UpsertPhase::Persisting, UpsertEvent::Persisted(Ok(()))) => v == moved(
            u,
            UpsertPhase::Finished,
        ) && a == UpsertAction::Finish(Ok(())),
        (UpsertPhase::Persisting, UpsertEvent::Persisted(Err(msg))) => v == moved(
            u,
            UpsertPhase::Finished,
        ) && a == UpsertAction::Finish(Err(AppError::UpsertError(msg))),
        _ => v == moved(u, UpsertPhase::Finished) && a matches UpsertAction::Finish(
            Err(AppError::UpsertError(_)),
        ),
    }
}

fn backend_failure(key: IndexKey, msg: String) -> (r: AppError)
    ensures
        r == backend_error(key, msg),
{
    match key.index_type {
        IndexType::FLAT => AppError::FaissError(msg),
        IndexType::HNSW => AppError::HnswError(msg),
        IndexType::USEARCH => AppError::UsearchError(msg),
        IndexType::UNKNOWN => AppError::UnsupportedIndexType(key),
    }
}

/// Holds of every state an upsert passes through: nothing is removed before
/// the new vector was read and checked, and a record whose metadata was stored
/// has its stale vector removed before the new vector may go in.
pub open spec fn replaces_stale(u: Upsert) -> bool {
    &&& (u.phase == UpsertPhase::InsertingVector || u.phase == UpsertPhase::Persisting) && u.stored
        ==> u.old_removed
    &&& u.old_removed ==> u.stored
    &&& (u.phase == UpsertPhase::CheckingStored || u.phase == UpsertPhase::ReadingVector
        || u.phase == UpsertPhase::RemovingOld) ==> !u.old_removed
    &&& u.phase == UpsertPhase::CheckingStored ==> !u.stored
    &&& u.phase == UpsertPhase::RemovingOld ==> u.stored
}

/// A step keeps `replaces_stale`. The stale vector of a stored record is
/// removed only once the new vector was read and has the index's dimension,
/// so a malformed document fails with the record as it was; the new vector
/// goes in only after the stale one is gone, so an id never has two vectors
/// in an index that removes by id; and the document is written only right
/// after the new vector went in.
pub proof fn lemma_upsert_step_replaces(u: Upsert, e: UpsertEvent, v: Upsert, a: UpsertAction)
    requires
        replaces_stale(u),
        transition(u, e, v, a),
    ensures
        replaces_stale(v),
        v.id == u.id && v.key == u.key,
        a == UpsertAction::RemoveVector ==> u.phase == UpsertPhase::ReadingVector && e
            == UpsertEvent::VectorRead(Some(u.key.dim as usize)),
        (a matches UpsertAction::Finish(Err(AppError::ValidationError(_)))) ==> !v.old_removed,
        a == UpsertAction::InsertVector ==> (v.stored ==> v.old_removed),
        a == UpsertAction::PersistMetadata ==> u.phase == UpsertPhase::InsertingVector && e
            == UpsertEvent::Inserted(Ok(())),
        u.phase == UpsertPhase::CheckingStored && e == UpsertEvent::Stored(true) && !removes_by_id(
            u.key.index_type,
        ) ==> (a matches UpsertAction::Finish(Err(AppError::UnsupportedOperation(k, _))) && k
            == u.key),
{
    match e {
        UpsertEvent::Inserted(r) => {
            if u.phase == UpsertPhase::InsertingVector {
                match r {
                    Ok(x) => {
                        assert(e == UpsertEvent::Inserted(Ok(())));
                    },
                    Err(_) => {},
                }
            }
        },
        _ => {},
    }
}

/// `states`, `events` and `actions` are an upsert run: each state learns the
/// next event and moves to the next state with the next action.
pub open spec fn is_run(states: Seq<Upsert>, events: Seq<UpsertEvent>, actions: Seq<UpsertAction>) -> bool {
    &&& states.len() == events.len() + 1
    &&& actions.len() == events.len()
    &&& forall|i: int|
        0 <= i < events.len() ==> #[trigger] transition(states[i], events[i], states[i + 1], actions[i])
}

proof fn lemma_run_keeps(
    states: Seq<Upsert>,
    events: Seq<UpsertEvent>,
    actions: Seq<UpsertAction>,
    n: int,
)
    requires
        is_run(states, events, actions),
        replaces_stale(states[0]),
        0 <= n < states.len(),
    ensures
        replaces_stale(states[n]),
        states[n].id == states[0].id && states[n].key == states[0].key,
    decreases n,
{
    if n > 0 {
        let j = n - 1;
        lemma_run_keeps(states, events, actions, j);
        assert(transition(states[j], events[j], states[j + 1], actions[j]));
        lemma_upsert_step_replaces(states[j], events[j], states[j + 1], actions[j]);
    }
}

/// Over a whole upsert that starts as `Upsert::start` leaves it: the record
/// and index never change; a stale vector is removed only after a vector of
/// the index's dimension was read, so a document without one fails with the
/// record intact; the new vector of a record whose metadata was stored goes
/// in only after its stale vector was removed; and the document is written
/// only right after the new vector went in.
pub proof fn lemma_upsert_run_replaces(
    states: Seq<Upsert>,
    events: Seq<UpsertEvent>,
    actions: Seq<UpsertAction>,
)
    requires
        is_run(states, events, actions),
        replaces_stale(states[0]),
    ensures
        forall|i: int|
            0 <= i < states.len() ==> #[trigger] states[i].id == states[0].id && states[i].key
                == states[0].key,
        forall|i: int|
            0 <= i < actions.len() && #[trigger] actions[i] == UpsertAction::RemoveVector ==> events[i]
                == UpsertEvent::VectorRead(Some(states[0].key.dim as usize)),
        forall|i: int|
            0 <= i < actions.len() && (#[trigger] actions[i] matches UpsertAction::Finish(
                Err(AppError::ValidationError(_)),
            )) ==> !states[i + 1].old_removed,
        forall|i: int|
            0 <= i < actions.len() && #[trigger] actions[i] == UpsertAction::InsertVector
                && states[i + 1].stored ==> states[i + 1].old_removed,
        forall|i: int|
            0 <= i < actions.len() && #[trigger] actions[i] == UpsertAction::PersistMetadata ==> events[i]
                == UpsertEvent::Inserted(Ok(())),
{
    assert forall|i: int|
        0 <= i < actions.len() && #[trigger] actions[i] == UpsertAction::RemoveVector implies events[i]
            == UpsertEvent::VectorRead(Some(states[0].key.dim as usize)) by {
        lemma_run_keeps(states, events, actions, i);
        assert(transition(states[i], events[i], states[i + 1], actions[i]));
        lemma_upsert_step_replaces(states[i], events[i], states[i + 1], actions[i]);
    }
    assert forall|i: int|
        0 <= i < actions.len() && (#[trigger] actions[i] matches UpsertAction::Finish(
            Err(AppError::ValidationError(_)),
        )) implies !states[i + 1].old_removed by {
        lemma_run_keeps(states, events, actions, i);
        assert(transition(states[i], events[i], states[i + 1], actions[i]));
        lemma_upsert_step_replaces(states[i], events[i], states[i + 1], actions[i]);
    }
    assert forall|i: int| 0 <= i < states.len() implies #[trigger] states[i].id == states[0].id
        && states[i].key == states[0].key by {
        lemma_run_keeps(states, events, actions, i);
    }
    assert forall|i: int|
        0 <= i < actions.len() && #[trigger] actions[i] == UpsertAction::InsertVector
            && states[i + 1].stored implies states[i + 1].old_removed by {
        lemma_run_keeps(states, events, actions, i);
        assert(transition(states[i], events[i], states[i + 1], actions[i]));
        lemma_upsert_step_replaces(states[i], events[i], states[i + 1], actions[i]);
    }
    assert forall|i: int|
        0 <= i < actions.len() && #[trigger] actions[i] == UpsertAction::PersistMetadata implies events[i]
            == UpsertEvent::Inserted(Ok(())) by {
        lemma_run_keeps(states, events, actions, i);
        assert(transition(states[i], events[i], states[i + 1], actions[i]));
        lemma_upsert_step_replaces(states[i], events[i], states[i + 1], actions[i]);
    }
}

impl Upsert {
    /// Begins the upsert of `id` into the index of `key`. Where the registry
    /// has no such index the upsert is over at once with `IndexNotFound`;
    /// otherwise the caller first looks up the stored metadata of `id`.
    pub fn start<T>(registry: &IndexFactory<T>, id: u64, key: IndexKey) -> (r: (Upsert, UpsertAction))
        ensures
            r.0.id == id && r.0.key == key && !r.0.stored && !r.0.old_removed,
            replaces_stale(r.0),
            registry@.contains_key(key) ==> r.0.phase == UpsertPhase::CheckingStored && r.1
                == UpsertAction::LoadStored,
            !registry@.contains_key(key) ==> r.0.phase == UpsertPhase::Finished && r.1 matches UpsertAction::Finish(
                Err(AppError::IndexNotFound(_)),
            ),
    {
        let found = registry.get_index(key).is_some();
        if found {
            (
                Upsert { id, key, phase: UpsertPhase::CheckingStored, stored: false, old_removed: false },
                UpsertAction::LoadStored,
            )
        } else {
            (
                Upsert { id, key, phase: UpsertPhase::Finished, stored: false, old_removed: false },
                UpsertAction::Finish(Err(AppError::IndexNotFound("index not found".to_owned()))),
            )
        }
    }

    /// Takes what the caller learned from the pending action and says what to
    /// do next: the new vector is read and checked first; then a stale vector
    /// is removed before the new one goes in, where the backend cannot remove
    /// one the upsert fails instead; and the document is written only once the
    /// new vector is in.
    pub fn step(self, e: UpsertEvent) -> (r: (Upsert, UpsertAction))
        ensures
            transition(self, e, r.0, r.1),
    {
        let u = self;
        match (u.phase, e) {
            (UpsertPhase::CheckingStored, UpsertEvent::Stored(false)) => (
                Upsert { phase: UpsertPhase::ReadingVector, ..u },
                UpsertAction::ReadVector,
            ),
            (UpsertPhase::CheckingStored, UpsertEvent::Stored(true)) => {
                match u.key.index_type {
                    IndexType::FLAT | IndexType::USEARCH => (
                        Upsert { phase: UpsertPhase::ReadingVector, stored: true, ..u },
                        UpsertAction::ReadVector,
                    ),
                    _ => (
                        Upsert { phase: UpsertPhase::Finished, stored: true, ..u },
                        UpsertAction::Finish(
                            Err(
                                AppError::UnsupportedOperation(
                                    u.key,
                                    "this index cannot replace a stored vector".to_owned(),
                                ),
                            ),
                        ),
                    ),
                }
            },
            (UpsertPhase::ReadingVector, UpsertEvent::VectorRead(Some(n))) => {
                if n != u.key.dim as usize {
                    (
                        Upsert { phase: UpsertPhase::Finished, ..u },
                        UpsertAction::Finish(
                            Err(
                                AppError::ValidationError(
                                    "vector length does not match the index dimension".to_owned(),
                                ),
                            ),
                        ),
                    )
                } else if u.stored {
                    (Upsert { phase: UpsertPhase::RemovingOld, ..u }, UpsertAction::RemoveVector)
                } else {
                    (Upsert { phase: UpsertPhase::InsertingVector, ..u }, UpsertAction::InsertVector)
                }
            },
            (UpsertPhase::RemovingOld, UpsertEvent::Removed(Ok(()))) => (
                Upsert { phase: UpsertPhase::InsertingVector, old_removed: true, ..u },
                UpsertAction::InsertVector,
            ),
            (UpsertPhase::RemovingOld, UpsertEvent::Removed(Err(msg))) => (
                Upsert { phase: UpsertPhase::Finished, ..u },
                UpsertAction::Finish(Err(backend_failure(u.key, msg))),
            ),
            (UpsertPhase::ReadingVector, UpsertEvent::VectorRead(None)) => (
                Upsert { phase: UpsertPhase::Finished, ..u },
                UpsertAction::Finish(
                    Err(
                        AppError::ValidationError(
                            "vectors field not found or not an array of numbers".to_owned(),
                        ),
                    ),
                ),
            ),
            (UpsertPhase::InsertingVector, UpsertEvent::Inserted(Ok(()))) => (
                Upsert { phase: UpsertPhase::Persisting, ..u },
                UpsertAction::PersistMetadata,
            ),
            (UpsertPhase::InsertingVector, UpsertEvent::Inserted(Err(msg))) => (
                Upsert { phase: UpsertPhase::Finished, ..u },
                UpsertAction::Finish(Err(backend_failure(u.key, msg))),
            ),
            (UpsertPhase::Persisting, UpsertEvent::Persisted(Ok(()))) => (
                Upsert { phase: UpsertPhase::Finished, ..u },
                UpsertAction::Finish(Ok(())),
            ),
            (UpsertPhase::Persisting, UpsertEvent::Persisted(Err(msg))) => (
                Upsert { phase: UpsertPhase::Finished, ..u },
                UpsertAction::Finish(Err(AppError::UpsertError(msg))),
            ),
            _ => (
                Upsert { phase: UpsertPhase::Finished, ..u },
                UpsertAction::Finish(Err(AppError::UpsertError("event out of order".to_owned()))),
            ),
        }
    }
}

} // verus!
