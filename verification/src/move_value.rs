//! Plain values of the base value language, and their serialized form.
//!
//! A plain value is a `move_core_types::value::MoveValue`. The resolver never
//! looks inside one: it builds vectors and structs of them and serializes
//! them, each time through one of the functions below, whose contracts are
//! taken on trust from the outside code.

use move_core_types::value::{MoveStruct, MoveValue};
use vstd::prelude::*;

verus! {

/// `move_core_types::value::MoveValue`, carried through unread.
#[verifier::external_type_specification]
#[verifier::external_body]
pub struct ExMoveValue(move_core_types::value::MoveValue);

/// What `MoveValue::simple_serialize` returns for `value`: its BCS bytes, or
/// nothing where BCS refuses the value.
pub uninterp spec fn serialized_value(value: MoveValue) -> Option<Seq<u8>>;

/// The value `MoveValue::Vector` with the elements `elems`.
pub uninterp spec fn vector_value(elems: Seq<MoveValue>) -> MoveValue;

/// The value `MoveValue::Struct` in its runtime representation, with the
/// fields `fields`.
pub uninterp spec fn struct_value(fields: Seq<MoveValue>) -> MoveValue;

/// Calls `MoveValue::simple_serialize`, which hands the value to
/// `bcs::to_bytes` and drops the error. Assumed: the result depends on the
/// value alone.
#[verifier::external_body]
pub(crate) fn simple_serialize(value: &MoveValue) -> (bytes: Option<Vec<u8>>)
    ensures
        bytes is Some <==> serialized_value(*value) is Some,
        bytes matches Some(b) ==> serialized_value(*value) == Some(b@),
{
    value.simple_serialize()
}

/// Builds `MoveValue::Vector(elems)`. Assumed: the result depends on the
/// elements alone.
#[verifier::external_body]
pub(crate) fn new_vector(elems: Vec<MoveValue>) -> (value: MoveValue)
    ensures
        value == vector_value(elems@),
{
    MoveValue::Vector(elems)
}

/// Builds `MoveValue::Struct(MoveStruct::Runtime(fields))`. Assumed: the
/// result depends on the fields alone.
#[verifier::external_body]
pub(crate) fn new_struct(fields: Vec<MoveValue>) -> (value: MoveValue)
    ensures
        value == struct_value(fields@),
{
    MoveValue::Struct(MoveStruct::Runtime(fields))
}

/// The unsigned LEB128 form of `n`: seven bits to a byte, least significant
/// first, the top bit set on every byte but the last.
pub open spec fn uleb128(n: nat) -> Seq<u8>
    decreases n,
{
    if n < 128 {
        seq![n as u8]
    } else {
        seq![(n % 128 + 128) as u8] + uleb128(n / 128)
    }
}

/// The longest sequence that BCS serializes.
pub open spec fn max_sequence_length() -> nat {
    0x7fff_ffff
}

/// The BCS form of the byte sequence `bytes`, where it has one: the length
/// in unsigned LEB128, then the bytes.
pub open spec fn bcs_of_bytes(bytes: Seq<u8>) -> Option<Seq<u8>> {
    if bytes.len() <= max_sequence_length() {
        Some(uleb128(bytes.len()) + bytes)
    } else {
        None
    }
}

/// Calls `bcs::to_bytes` on a byte vector. Assumed, from the serializer's
/// source: a sequence is written as its length in unsigned LEB128 followed by
/// its elements, a byte is written as itself, and the only refusal is a
/// length above `bcs::MAX_SEQUENCE_LENGTH`.
#[verifier::external_body]
pub(crate) fn bcs_bytes(bytes: &Vec<u8>) -> (out: Option<Vec<u8>>)
    ensures
        out is Some <==> bcs_of_bytes(bytes@) is Some,
        out matches Some(b) ==> bcs_of_bytes(bytes@) == Some(b@),
{
    bcs::to_bytes(bytes).ok()
}

} // verus!
