//! A local store of package objects that is filled from a remote node: what
//! is done for each outcome of a read, a fetch and a write.
//!
//! The store and the node are not here. Each function takes what one of them
//! gave and decides what follows. `O` is a stored object, `E` the failure of
//! the local store.

use crate::base_types::ObjectID;
use vstd::prelude::*;
use vstd::string::StringExecFns;

verus! {

/// The name of the local store, as errors give it.
pub const STORE: &'static str = "RocksDB";

/// An error of the package store.
#[derive(Debug, PartialEq, Eq)]
pub enum Error<E> {
    TypedStore(E),
}

/// An error as a resolver of packages sees it.
#[derive(Debug, PartialEq, Eq)]
pub enum PackageResolverError<E> {
    /// The store named `store` failed.
    Store { store: &'static str, source: E },
    /// Neither the local store nor the remote node has the package.
    PackageNotFound(ObjectID),
}

impl<E> From<Error<E>> for PackageResolverError<E> {
    fn from(source: Error<E>) -> (error: Self) {
        match source {
            Error::TypedStore(store_error) => Self::Store { store: STORE, source: store_error },
        }
    }
}

impl<E> vstd::std_specs::convert::FromSpecImpl<Error<E>> for PackageResolverError<E> {
    open spec fn obeys_from_spec() -> bool {
        true
    }

    open spec fn from_spec(source: Error<E>) -> Self {
        match source {
            Error::TypedStore(store_error) => Self::Store { store: STORE, source: store_error },
        }
    }
}

/// The address of the remote node's REST interface: `rest_url` followed by
/// `/rest`.
pub fn rest_api_url(rest_url: &str) -> (url: String)
    ensures
        url@ == rest_url@ + "/rest"@,
{
    String::from_str(rest_url).concat("/rest")
}

/// What follows a step of a lookup.
#[derive(Debug, PartialEq, Eq)]
pub enum Next<O, E> {
    /// The lookup ends with this answer.
    Return(Result<O, PackageResolverError<E>>),
    /// The package has to be fetched from the remote node.
    Fetch(ObjectID),
    /// The object has to be written to the local store; it is the answer once
    /// that is done.
    Update(O),
}

/// Whether the local store is to keep an object: only a package is kept.
pub fn update(is_package: bool) -> (keep: bool)
    ensures
        keep == is_package,
{
    is_package
}

/// What follows the read of the local store for `id`: the object that was
/// found is the answer, a missing one is fetched, a failure of the store
/// ends the lookup.
pub open spec fn after_read<O, E>(id: ObjectID, read: Result<Option<O>, E>) -> Next<O, E> {
    match read {
        Ok(Some(object)) => Next::Return(Ok(object)),
        Ok(None) => Next::Fetch(id),
        Err(e) => Next::Return(Err(PackageResolverError::Store { store: STORE, source: e })),
    }
}

pub fn get<O, E>(id: ObjectID, read: Result<Option<O>, E>) -> (next: Next<O, E>)
    ensures
        next == after_read(id, read),
{
    match read {
        Ok(Some(object)) => Next::Return(Ok(object)),
        Ok(None) => Next::Fetch(id),
        Err(e) => Next::Return(Err(PackageResolverError::from(Error::TypedStore(e)))),
    }
}

/// What follows the fetch of `id` from the remote node: a package is
/// written to the local store first, any other object is the answer as it
/// is, and a failed fetch means that the package was not found.
pub open spec fn after_fetch<O, E>(id: ObjectID, found: Option<O>, is_package: bool) -> Next<O, E> {
    match found {
        Some(object) => if is_package {
            Next::Update(object)
        } else {
            Next::Return(Ok(object))
        },
        None => Next::Return(Err(PackageResolverError::PackageNotFound(id))),
    }
}

pub fn fetched<O, E>(id: ObjectID, found: Option<O>, is_package: bool) -> (next: Next<O, E>)
    ensures
        next == after_fetch::<O, E>(id, found, is_package),
{
    match found {
        Some(object) => {
            if update(is_package) {
                Next::Update(object)
            } else {
                Next::Return(Ok(object))
            }
        },
        None => Next::Return(Err(PackageResolverError::PackageNotFound(id))),
    }
}

/// The answer once `object` was written to the local store: the object, or
/// the failure of the store.
pub fn updated<O, E>(object: O, written: Result<(), E>) -> (answer: Result<
    O,
    PackageResolverError<E>,
>)
    ensures
        answer == (match written {
            Ok(()) => Ok::<O, PackageResolverError<E>>(object),
            Err(e) => Err::<O, PackageResolverError<E>>(
                PackageResolverError::Store { store: STORE, source: e },
            ),
        }),
{
    match written {
        Ok(()) => Ok(object),
        Err(e) => Err(PackageResolverError::from(Error::TypedStore(e))),
    }
}

} // verus!
