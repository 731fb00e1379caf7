//! Objects as the resolver reads them.

use crate::base_types::{ObjectDigest, ObjectID, ObjectRef, SequenceNumber, SuiAddress};
use vstd::prelude::*;

verus! {

/// The ownership mode of an object.
#[derive(Clone, Copy, Debug, PartialEq, Eq, Hash)]
pub enum Owner {
    /// Owned by one account.
    AddressOwner(SuiAddress),
    /// Owned by another object.
    ObjectOwner(SuiAddress),
    /// Shared, since the version at which it became so.
    Shared { initial_shared_version: SequenceNumber },
    /// Frozen: nobody can change it.
    Immutable,
}

/// One version of an object: what identifies it and who owns it.
#[derive(Clone, Copy, Debug, PartialEq, Eq, Hash)]
pub struct Object {
    pub id: ObjectID,
    pub version: SequenceNumber,
    pub digest: ObjectDigest,
    pub owner: Owner,
}

impl Object {
    pub fn id(&self) -> (id: ObjectID)
        ensures
            id == self.id,
    {
        self.id
    }

    pub fn version(&self) -> (version: SequenceNumber)
        ensures
            version == self.version,
    {
        self.version
    }

    /// The exact reference to this version of the object.
    pub open spec fn reference(self) -> ObjectRef {
        (self.id, self.version, self.digest)
    }

    pub fn compute_object_reference(&self) -> (reference: ObjectRef)
        ensures
            reference == self.reference(),
    {
        (self.id, self.version, self.digest)
    }
}

} // verus!
