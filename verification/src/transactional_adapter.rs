//! The contract between a scenario and the backend that executes it: which
//! capabilities each backend has, and what each backend is asked for.

use crate::base_types::TransactionDigest;
use vstd::prelude::*;

verus! {

/// The two backends.
#[derive(Clone, Copy, Debug, PartialEq, Eq, Hash, Structural)]
pub enum Backend {
    /// A validator and a fullnode, as two authorities.
    ValidatorWithFullnode,
    /// A simulated chain in one process, which owns its ledger.
    Simulator,
}

/// What a scenario can ask of a backend.
#[derive(Clone, Copy, Debug, PartialEq, Eq, Hash, Structural)]
pub enum Capability {
    ExecuteTxn,
    CreateCheckpoint,
    AdvanceClock,
    AdvanceEpoch,
    RequestGas,
    DevInspect,
    QueryTxEventsAsc,
}

/// The backend does not have the capability. This is an answer that a driver
/// can act on, not a failure of the backend.
#[derive(Clone, Copy, Debug, PartialEq, Eq, Hash, Structural)]
pub struct NotSupported {
    pub backend: Backend,
    pub capability: Capability,
}

/// How a transaction reaches the validator.
#[derive(Clone, Copy, Debug, PartialEq, Eq, Hash, Structural)]
pub enum ExecutionPath {
    /// Straight to execution: the transaction touches no shared object.
    FastPath,
    /// Through consensus: the transaction touches a shared object.
    Consensus,
}

/// A query to an event index for the events of one transaction, from the
/// first event on.
#[derive(Clone, Copy, Debug, PartialEq, Eq, Hash)]
pub struct EventQuery {
    pub tx_digest: TransactionDigest,
    pub limit: usize,
    pub descending: bool,
}

impl Backend {
    /// Whether the backend has the capability. The simulator has all of
    /// them; the validator with its fullnode executes, inspects and answers
    /// event queries (the last two through the fullnode), and has no control
    /// over checkpoints, clock, epochs or funds.
    pub open spec fn supports(self, capability: Capability) -> bool {
        match self {
            Backend::Simulator => true,
            Backend::ValidatorWithFullnode => match capability {
                Capability::ExecuteTxn => true,
                Capability::DevInspect => true,
                Capability::QueryTxEventsAsc => true,
                Capability::CreateCheckpoint => false,
                Capability::AdvanceClock => false,
                Capability::AdvanceEpoch => false,
                Capability::RequestGas => false,
            },
        }
    }

    /// Admits a request for `capability`, or refuses it where the backend
    /// does not have the capability.
    pub fn require(self, capability: Capability) -> (admitted: Result<(), NotSupported>)
        ensures
            admitted == (if self.supports(capability) {
                Ok::<(), NotSupported>(())
            } else {
                Err::<(), NotSupported>(NotSupported { backend: self, capability })
            }),
    {
        let supported = match self {
            Backend::Simulator => true,
            Backend::ValidatorWithFullnode => match capability {
                Capability::ExecuteTxn | Capability::DevInspect | Capability::QueryTxEventsAsc => {
                    true
                },
                Capability::CreateCheckpoint
                | Capability::AdvanceClock
                | Capability::AdvanceEpoch
                | Capability::RequestGas => false,
            },
        };
        if supported {
            Ok(())
        } else {
            Err(NotSupported { backend: self, capability })
        }
    }
}

/// The path on which the validator executes a transaction.
pub fn execution_path(contains_shared_object: bool) -> (path: ExecutionPath)
    ensures
        path == (if contains_shared_object {
            ExecutionPath::Consensus
        } else {
            ExecutionPath::FastPath
        }),
{
    if contains_shared_object {
        ExecutionPath::Consensus
    } else {
        ExecutionPath::FastPath
    }
}

/// The query that the fullnode's event index is asked for the events of
/// `tx_digest`: at most `limit` of them, oldest first.
pub fn ascending_event_query(tx_digest: &TransactionDigest, limit: usize) -> (query: EventQuery)
    ensures
        query == (EventQuery { tx_digest: *tx_digest, limit, descending: false }),
{
    EventQuery { tx_digest: *tx_digest, limit, descending: false }
}

/// What a query of the fullnode's event index comes to: the events that the
/// index answered with, as they are, or the failure of the index, which
/// reaches the caller.
pub fn indexed_events<T, E>(answer: Result<Vec<T>, E>) -> (events: Result<Vec<T>, E>)
    ensures
        events == answer,
{
    answer
}

/// The first `limit` of `events`, or all of them where there are fewer.
pub open spec fn up_to<T>(events: Seq<T>, limit: int) -> Seq<T> {
    if limit < events.len() {
        events.take(limit)
    } else {
        events
    }
}

/// The events that the simulator's store holds for a transaction, oldest
/// first and at most `limit` of them; none where the store does not know the
/// transaction.
pub fn stored_events<T>(found: Option<Vec<T>>, limit: usize) -> (events: Vec<T>)
    ensures
        events@ == (match found {
            Some(stored) => up_to(stored@, limit as int),
            None => Seq::<T>::empty(),
        }),
{
    match found {
        Some(stored) => {
            let mut stored = stored;
            stored.truncate(limit);
            stored
        },
        None => Vec::new(),
    }
}

/// The validator with its fullnode refuses checkpoint creation, clock
/// advance, epoch advance and funds requests, and nothing else; the simulator
/// refuses nothing.
pub proof fn law_partial_support(capability: Capability)
    ensures
        Backend::Simulator.supports(capability),
        !Backend::ValidatorWithFullnode.supports(capability) <==> (capability
            == Capability::CreateCheckpoint || capability == Capability::AdvanceClock
            || capability == Capability::AdvanceEpoch || capability == Capability::RequestGas),
{
}

} // verus!
