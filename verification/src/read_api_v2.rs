//! The read interface over an indexer's reader: what is answered for each
//! outcome of a read.
//!
//! The reads themselves are the reader's. Each function here takes what a
//! read gave and decides the answer, or the next read.

use crate::base_types::{ObjectID, ObjectRef, TransactionDigest};
use vstd::prelude::*;

verus! {

/// A checkpoint, named by its sequence number or by its digest.
#[derive(Clone, Copy, Debug, PartialEq, Eq, Hash)]
pub enum CheckpointId {
    SequenceNumber(u64),
    Digest([u8; 32]),
}

/// Why a read has no answer. `E` is the reader's own error.
#[derive(Clone, Debug, PartialEq, Eq)]
pub enum ReadError<E> {
    /// The reader failed.
    Reader(E),
    /// The reader holds no such checkpoint.
    CheckpointNotFound(CheckpointId),
    /// The reader holds no such transaction.
    TransactionNotFound(TransactionDigest),
    /// More items were asked for at once than the limit, which it holds.
    SizeLimitExceeded(usize),
    /// The interface does not offer the method.
    MethodNotFound,
    /// No protocol configuration exists for the version; holds the least and
    /// the greatest version that have one.
    ProtocolVersionUnsupported(u64, u64),
    /// The display of an object could not be worked out; holds the reason.
    Generic(String),
}

/// The read interface over the reader `R`.
#[derive(Clone)]
pub struct ReadApiV2<R> {
    inner: R,
}

impl<R> ReadApiV2<R> {
    /// The reader that the interface reads from.
    pub closed spec fn reader(&self) -> R {
        self.inner
    }

    pub fn new(inner: R) -> (api: Self)
        ensures
            api.reader() == inner,
    {
        Self { inner }
    }

    pub fn inner(&self) -> (reader: &R)
        ensures
            *reader == self.reader(),
    {
        &self.inner
    }
}

/// The checkpoint that a lookup of `id` gave, or why there is none.
pub fn get_checkpoint<C, E>(id: CheckpointId, looked_up: Result<Option<C>, E>) -> (checkpoint:
    Result<C, ReadError<E>>)
    ensures
        checkpoint == (match looked_up {
            Ok(Some(found)) => Ok::<C, ReadError<E>>(found),
            Ok(None) => Err::<C, ReadError<E>>(ReadError::CheckpointNotFound(id)),
            Err(e) => Err::<C, ReadError<E>>(ReadError::Reader(e)),
        }),
{
    match looked_up {
        Ok(Some(found)) => Ok(found),
        Ok(None) => Err(ReadError::CheckpointNotFound(id)),
        Err(e) => Err(ReadError::Reader(e)),
    }
}

/// What a display is worked out from, after the object's type and layout
/// were looked at: nothing to display, the type to look a display up for, or
/// the reason why the look failed.
pub fn get_display_fields<T, E>(resolved: Result<Option<T>, String>) -> (next: Result<
    Option<T>,
    ReadError<E>,
>)
    ensures
        next == (match resolved {
            Ok(found) => Ok::<Option<T>, ReadError<E>>(found),
            Err(reason) => Err::<Option<T>, ReadError<E>>(ReadError::Generic(reason)),
        }),
{
    match resolved {
        Ok(found) => Ok(found),
        Err(reason) => Err(ReadError::Generic(reason)),
    }
}

/// What the reader holds for an object. `O` is the object with its layout.
#[derive(Debug, PartialEq, Eq)]
pub enum ObjectRead<O> {
    NotExists(ObjectID),
    Exists(ObjectRef, O),
    Deleted(ObjectRef),
}

/// Why an answer about an object is not, or not only, the object.
#[derive(Debug, PartialEq, Eq)]
pub enum ObjectResponseError {
    NotExists { object_id: ObjectID },
    Deleted { reference: ObjectRef },
    DisplayError { error: String },
}

/// An object as it is answered: `D` is its display.
#[derive(Debug, PartialEq, Eq)]
pub struct ObjectData<O, D> {
    pub reference: ObjectRef,
    pub object: O,
    pub display: Option<D>,
}

/// The answer to a read of one object.
#[derive(Debug, PartialEq, Eq)]
pub struct ObjectResponse<O, D> {
    pub data: Option<ObjectData<O, D>>,
    pub error: Option<ObjectResponseError>,
}

/// What follows the read of an object: the answer, or the display that has
/// to be worked out first.
#[derive(Debug, PartialEq, Eq)]
pub enum ObjectStep<O, D> {
    Respond(ObjectResponse<O, D>),
    Display(ObjectRef, O),
}

/// What follows the read `read` of an object. An object that exists is
/// answered at once unless its display was asked for.
pub open spec fn object_step<O, D>(read: ObjectRead<O>, show_display: bool) -> ObjectStep<O, D> {
    match read {
        ObjectRead::NotExists(object_id) => ObjectStep::Respond(
            ObjectResponse { data: None, error: Some(ObjectResponseError::NotExists { object_id }) },
        ),
        ObjectRead::Exists(reference, object) => if show_display {
            ObjectStep::Display(reference, object)
        } else {
            ObjectStep::Respond(
                ObjectResponse {
                    data: Some(ObjectData { reference, object, display: None }),
                    error: None,
                },
            )
        },
        ObjectRead::Deleted(reference) => ObjectStep::Respond(
            ObjectResponse { data: None, error: Some(ObjectResponseError::Deleted { reference }) },
        ),
    }
}

pub fn get_object<O, D>(read: ObjectRead<O>, show_display: bool) -> (step: ObjectStep<O, D>)
    ensures
        step == object_step::<O, D>(read, show_display),
{
    match read {
        ObjectRead::NotExists(object_id) => ObjectStep::Respond(
            ObjectResponse { data: None, error: Some(ObjectResponseError::NotExists { object_id }) },
        ),
        ObjectRead::Exists(reference, object) => {
            if show_display {
                ObjectStep::Display(reference, object)
            } else {
                ObjectStep::Respond(
                    ObjectResponse {
                        data: Some(ObjectData { reference, object, display: None }),
                        error: None,
                    },
                )
            }
        },
        ObjectRead::Deleted(reference) => ObjectStep::Respond(
            ObjectResponse { data: None, error: Some(ObjectResponseError::Deleted { reference }) },
        ),
    }
}

/// The answer for an object whose display was asked for: the object with
/// its display or, where the display failed, the object without one,
/// together with the reason.
pub open spec fn displayed_object<O, D>(
    reference: ObjectRef,
    object: O,
    rendered: Result<D, String>,
) -> ObjectResponse<O, D> {
    match rendered {
        Ok(display) => ObjectResponse {
            data: Some(ObjectData { reference, object, display: Some(display) }),
            error: None,
        },
        Err(error) => ObjectResponse {
            data: Some(ObjectData { reference, object, display: None }),
            error: Some(ObjectResponseError::DisplayError { error }),
        },
    }
}

pub fn object_with_display<O, D>(reference: ObjectRef, object: O, rendered: Result<D, String>) -> (
    response: ObjectResponse<O, D>)
    ensures
        response == displayed_object(reference, object, rendered),
{
    match rendered {
        Ok(display) => ObjectResponse {
            data: Some(ObjectData { reference, object, display: Some(display) }),
            error: None,
        },
        Err(error) => ObjectResponse {
            data: Some(ObjectData { reference, object, display: None }),
            error: Some(ObjectResponseError::DisplayError { error }),
        },
    }
}

/// Admits a query for `count` items at once where `limit` allows it.
pub fn check_query_size<E>(count: usize, limit: usize) -> (admitted: Result<(), ReadError<E>>)
    ensures
        admitted == (if count > limit {
            Err::<(), ReadError<E>>(ReadError::SizeLimitExceeded(limit))
        } else {
            Ok::<(), ReadError<E>>(())
        }),
{
    if count > limit {
        Err(ReadError::SizeLimitExceeded(limit))
    } else {
        Ok(())
    }
}

/// The first error among `results` from the place `from` on, if there is
/// one.
pub open spec fn first_error_from<T, E>(results: Seq<Result<T, E>>, from: int) -> Option<E>
    decreases results.len() - from,
{
    if from < 0 || from >= results.len() {
        None
    } else {
        match results[from] {
            Err(e) => Some(e),
            Ok(_) => first_error_from(results, from + 1),
        }
    }
}

/// The first error among `results`, if there is one.
pub open spec fn first_error<T, E>(results: Seq<Result<T, E>>) -> Option<E> {
    first_error_from(results, 0)
}

/// The values of `results`, where each is one.
pub open spec fn all_values<T, E>(results: Seq<Result<T, E>>) -> Seq<T> {
    Seq::new(results.len(), |k: int| results[k]->Ok_0)
}

/// The answers to a query for several objects, from the answers for each:
/// all of them in order, or the first error.
pub fn multi_get_objects<T, E>(results: Vec<Result<T, E>>) -> (all: Result<Vec<T>, E>)
    ensures
        match all {
            Ok(values) => first_error(results@) is None && values@ == all_values(results@),
            Err(e) => first_error(results@) == Some(e),
        },
{
    let ghost given = results@;
    let mut values: Vec<T> = Vec::new();
    for result in it: results
        invariant
            it.seq() == given,
            values@.len() == it.index(),
            forall|j: int| 0 <= j < it.index() ==> given[j] == Ok::<T, E>(values@[j]),
            first_error(given) == first_error_from(given, it.index() as int),
    {
        match result {
            Ok(value) => {
                values.push(value);
            },
            Err(e) => {
                return Err(e);
            },
        }
    }
    assert(values@ =~= all_values(given));
    Ok(values)
}

/// The one transaction that a query for `digest` alone gave: the last of
/// `found`, or the error that there is none.
pub fn get_transaction_block<T, E>(digest: TransactionDigest, found: Vec<T>) -> (transaction:
    Result<T, ReadError<E>>)
    ensures
        transaction == (if found@.len() > 0 {
            Ok::<T, ReadError<E>>(found@.last())
        } else {
            Err::<T, ReadError<E>>(ReadError::TransactionNotFound(digest))
        }),
{
    let mut found = found;
    match found.pop() {
        Some(last) => Ok(last),
        None => Err(ReadError::TransactionNotFound(digest)),
    }
}

/// A checkpoint: its sequence number, and all else of it in `rest`.
#[derive(Clone, Debug, PartialEq, Eq)]
pub struct Checkpoint<C> {
    pub sequence_number: u64,
    pub rest: C,
}

/// One page of checkpoints.
#[derive(Clone, Debug, PartialEq, Eq)]
pub struct CheckpointPage<C> {
    pub data: Vec<Checkpoint<C>>,
    pub next_cursor: Option<u64>,
    pub has_next_page: bool,
}

/// The page of at most `limit` checkpoints from `checkpoints`, which were
/// read one beyond the limit: its data are the first `limit` of them, its
/// cursor is the sequence number of the last of its data, and there is a next
/// page where more than `limit` were read.
pub fn get_checkpoints<C>(checkpoints: Vec<Checkpoint<C>>, limit: usize) -> (page: CheckpointPage<
    C,
>)
    ensures
        page.has_next_page == (checkpoints@.len() > limit),
        page.data@ == (if checkpoints@.len() > limit {
            checkpoints@.take(limit as int)
        } else {
            checkpoints@
        }),
        page.next_cursor == (if page.data@.len() > 0 {
            Some(page.data@.last().sequence_number)
        } else {
            None
        }),
{
    let mut checkpoints = checkpoints;
    let has_next_page = checkpoints.len() > limit;
    checkpoints.truncate(limit);
    let next_cursor = if checkpoints.len() > 0 {
        Some(checkpoints[checkpoints.len() - 1].sequence_number)
    } else {
        None
    };
    CheckpointPage { data: checkpoints, next_cursor, has_next_page }
}

/// How many checkpoints to read for a page of `limit`: one more, where the
/// machine can count that far.
pub fn checkpoints_to_read(limit: usize) -> (count: Option<usize>)
    ensures
        count == (if limit < usize::MAX {
            Some((limit + 1) as usize)
        } else {
            None
        }),
{
    limit.checked_add(1)
}

/// A page limit given as a 64-bit number, as the machine counts: its low
/// bits, where it does not fit.
pub fn get_checkpoints_deprecated_limit(limit: Option<u64>) -> (narrowed: Option<usize>)
    ensures
        narrowed == (match limit {
            Some(l) => Some(l as usize),
            None => None,
        }),
{
    match limit {
        Some(l) => Some(#[verifier::truncate] (l as usize)),
        None => None,
    }
}

/// Where the protocol version of an answer comes from.
#[derive(Clone, Copy, Debug, PartialEq, Eq, Hash, Structural)]
pub enum ProtocolVersionSource {
    /// The version that was asked for.
    Given(u64),
    /// The version of the latest epoch, which has to be read.
    LatestEpoch,
}

/// Where the protocol version comes from, given the version asked for.
pub fn protocol_version_source(version: Option<u64>) -> (source: ProtocolVersionSource)
    ensures
        source == (match version {
            Some(v) => ProtocolVersionSource::Given(v),
            None => ProtocolVersionSource::LatestEpoch,
        }),
{
    match version {
        Some(v) => ProtocolVersionSource::Given(v),
        None => ProtocolVersionSource::LatestEpoch,
    }
}

/// The protocol configuration that was found for a version, or the error
/// that names the versions `min` to `max` that have one.
pub fn get_protocol_config<P, E>(found: Option<P>, min: u64, max: u64) -> (config: Result<
    P,
    ReadError<E>,
>)
    ensures
        config == (match found {
            Some(p) => Ok::<P, ReadError<E>>(p),
            None => Err::<P, ReadError<E>>(ReadError::ProtocolVersionUnsupported(min, max)),
        }),
{
    match found {
        Some(p) => Ok(p),
        None => Err(ReadError::ProtocolVersionUnsupported(min, max)),
    }
}

/// The answer of a method that the interface does not offer.
pub fn method_not_found<T, E>() -> (answer: Result<T, ReadError<E>>)
    ensures
        answer == Err::<T, ReadError<E>>(ReadError::MethodNotFound),
{
    Err(ReadError::MethodNotFound)
}

} // verus!
