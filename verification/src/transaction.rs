//! Transaction inputs.

use crate::base_types::{ObjectID, ObjectRef, SequenceNumber};
use vstd::prelude::*;

verus! {

/// An object handed to a transaction.
#[derive(Clone, Copy, Debug, PartialEq, Eq, Hash)]
pub enum ObjectArg {
    /// A single-owner or immutable object, pinned to one exact version.
    ImmOrOwnedObject(ObjectRef),
    /// A shared object, named by the version at which it became shared.
    SharedObject { id: ObjectID, initial_shared_version: SequenceNumber, mutable: bool },
    /// An object to be received by the transaction, pinned to one exact version.
    Receiving(ObjectRef),
}

/// One input of a transaction.
#[derive(Clone, Debug, PartialEq, Eq, Hash)]
pub enum CallArg {
    /// Plain data, in serialized form.
    Pure(Vec<u8>),
    /// An object.
    Object(ObjectArg),
}

/// A `CallArg` as a mathematical value.
pub enum CallArgView {
    Pure(Seq<u8>),
    Object(ObjectArg),
}

impl View for CallArg {
    type V = CallArgView;

    open spec fn view(&self) -> CallArgView {
        match self {
            CallArg::Pure(bytes) => CallArgView::Pure(bytes@),
            CallArg::Object(object) => CallArgView::Object(*object),
        }
    }
}

/// What a resolved value asks of a transaction builder.
#[derive(Clone, Debug, PartialEq, Eq, Hash)]
pub enum BuilderCall {
    /// Register one input.
    Input(CallArg),
    /// Register each object as an input, and make one vector of them.
    MakeObjVec(Vec<ObjectArg>),
}

/// A `BuilderCall` as a mathematical value.
pub enum BuilderCallView {
    Input(CallArgView),
    MakeObjVec(Seq<ObjectArg>),
}

impl View for BuilderCall {
    type V = BuilderCallView;

    open spec fn view(&self) -> BuilderCallView {
        match self {
            BuilderCall::Input(input) => BuilderCallView::Input(input@),
            BuilderCall::MakeObjVec(objects) => BuilderCallView::MakeObjVec(objects@),
        }
    }
}

} // verus!
