//! The arguments of the script verbs, the reference forms that extend the
//! base value language, and their resolution into transaction inputs.

use crate::base_types::{ObjectID, SequenceNumber};
use crate::move_value::{
    bcs_bytes, bcs_of_bytes, new_struct, new_vector, serialized_value, simple_serialize,
    struct_value, vector_value,
};
use crate::object::{Object, Owner};
use crate::parser::{expect, ParseError, Parser, Token, ValueToken};
use crate::storage::{ObjectStore, StorageError};
use crate::test_adapter::{FakeID, SuiTestAdapter};
use crate::transaction::{BuilderCall, BuilderCallView, CallArg, CallArgView, ObjectArg};
use crate::u256::U256;
use move_core_types::value::MoveValue;
use vstd::prelude::*;

verus! {

/// The long name of the flag that introduces the arguments of a verb.
pub const SUI_ARGS_LONG: &'static str = "sui-args";

/// What a script may add to a `run`.
#[derive(Clone, Debug, PartialEq, Eq)]
pub struct SuiRunArgs {
    pub sender: Option<String>,
    pub gas_price: Option<u64>,
    pub summarize: bool,
}

/// What a script may add to a `publish`.
#[derive(Clone, Debug, PartialEq, Eq)]
pub struct SuiPublishArgs {
    pub sender: Option<String>,
    pub upgradeable: bool,
    pub dependencies: Vec<String>,
}

/// What a script may add to its `init`.
#[derive(Clone, Debug, PartialEq, Eq)]
pub struct SuiInitArgs {
    pub accounts: Option<Vec<String>>,
    pub protocol_version: Option<u64>,
    pub max_gas: Option<u64>,
    pub shared_object_deletion: Option<bool>,
    pub simulator: bool,
}

/// `view-object`: shows the object behind a handle.
#[derive(Clone, Debug, PartialEq, Eq)]
pub struct ViewObjectCommand {
    pub id: FakeID,
}

/// `transfer-object`: hands the object behind a handle to a recipient.
#[derive(Clone, Debug, PartialEq, Eq)]
pub struct TransferObjectCommand {
    pub id: FakeID,
    pub recipient: String,
    pub sender: Option<String>,
    pub gas_budget: Option<u64>,
}

/// `consensus-commit-prologue`: commits a round of consensus at a time.
#[derive(Clone, Debug, PartialEq, Eq)]
pub struct ConsensusCommitPrologueCommand {
    pub timestamp_ms: u64,
}

/// `advance-clock`: moves the clock of the backend forward.
#[derive(Clone, Debug, PartialEq, Eq)]
pub struct AdvanceClockCommand {
    pub duration_ns: u64,
}

/// A reference form as a script writes it.
#[derive(Clone, Debug, PartialEq, Eq)]
pub enum SuiExtraValueArgs {
    /// `object(..)`: the object behind a handle, at a version if one is pinned.
    Object(FakeID, Option<SequenceNumber>),
    /// `digest(..)`: the digest of the package staged under a name.
    Digest(String),
    /// `receiving(..)`: the object behind a handle, to be received.
    Receiving(FakeID, Option<SequenceNumber>),
}

/// A handle with the version it is pinned to, if any.
pub type ObjectReference = (FakeID, Option<SequenceNumber>);

/// The tokens left after one token was taken from `tokens`.
pub open spec fn after(tokens: Seq<Token>) -> Seq<Token> {
    if tokens.len() == 0 {
        tokens
    } else {
        tokens.drop_first()
    }
}

/// The 64-bit number that a number token denotes, if it denotes one.
pub open spec fn u64_of(token: Token) -> Option<u64> {
    match token.number {
        Some(n) => n.spec_as_u64(),
        None => None,
    }
}

/// The handle that follows the first number `first` of a reference, and the
/// tokens left. A comma makes `first` and the number after it an enumerated
/// handle; without one, `first` is the address of a known handle.
pub open spec fn handle_form(tokens: Seq<Token>, first: U256) -> (
    Result<FakeID, ParseError>,
    Seq<Token>,
) {
    if tokens.len() > 0 && tokens[0].kind == ValueToken::Comma {
        let rest = after(after(tokens));
        match expect(after(tokens), ValueToken::Number) {
            Err(e) => (Err(e), rest),
            Ok(second) => match u64_of(second) {
                None => (Err(ParseError::InvalidU64(second.text)), rest),
                Some(j) => match first.spec_as_u64() {
                    None => (Err(ParseError::ObjectIdTooLarge), rest),
                    Some(i) => (Ok(FakeID::Enumerated(i, j)), rest),
                },
            },
        }
    } else {
        (Ok(FakeID::Known(ObjectID::spec_from_u256(first))), tokens)
    }
}

/// The version pin that follows the closing parenthesis of a reference, and
/// the tokens left: `@` and a 64-bit number, or nothing.
pub open spec fn version_form(tokens: Seq<Token>) -> (
    Result<Option<SequenceNumber>, ParseError>,
    Seq<Token>,
) {
    if tokens.len() > 0 && tokens[0].kind == ValueToken::AtSign {
        let rest = after(after(tokens));
        match expect(after(tokens), ValueToken::Number) {
            Err(e) => (Err(e), rest),
            Ok(pin) => match u64_of(pin) {
                None => (Err(ParseError::InvalidU64(pin.text)), rest),
                Some(v) => (Ok(Some(SequenceNumber(v))), rest),
            },
        }
    } else {
        (Ok(None), tokens)
    }
}

/// What follows the first number `first` of a reference: the rest of the
/// handle, the closing parenthesis and the version pin.
pub open spec fn reference_tail(tokens: Seq<Token>, first: U256) -> (
    Result<ObjectReference, ParseError>,
    Seq<Token>,
) {
    let (handle, rest) = handle_form(tokens, first);
    match handle {
        Err(e) => (Err(e), rest),
        Ok(fake_id) => match expect(rest, ValueToken::RParen) {
            Err(e) => (Err(e), after(rest)),
            Ok(_) => {
                let (version, left) = version_form(after(rest));
                match version {
                    Err(e) => (Err(e), left),
                    Ok(v) => (Ok((fake_id, v)), left),
                }
            },
        },
    }
}

/// The reference that `tokens` start with, and the tokens left:
/// `keyword(N)`, `keyword(I, J)`, either one followed by `@V` or not.
///
/// A token that is refused has been taken from the stream.
pub open spec fn reference_form(tokens: Seq<Token>, keyword: Seq<char>) -> (
    Result<ObjectReference, ParseError>,
    Seq<Token>,
) {
    let t1 = after(tokens);
    let t2 = after(t1);
    let t3 = after(t2);
    match expect(tokens, ValueToken::Ident) {
        Err(e) => (Err(e), t1),
        Ok(word) => if word.text@ != keyword {
            (Err(ParseError::UnexpectedIdent(word.text)), t1)
        } else {
            match expect(t1, ValueToken::LParen) {
                Err(e) => (Err(e), t2),
                Ok(_) => match expect(t2, ValueToken::Number) {
                    Err(e) => (Err(e), t3),
                    Ok(first) => match first.number {
                        None => (Err(ParseError::InvalidU256(first.text)), t3),
                        Some(i) => reference_tail(t3, i),
                    },
                },
            }
        },
    }
}

/// The `object(..)` form that `tokens` start with, and the tokens left.
pub open spec fn object_form(tokens: Seq<Token>) -> (
    Result<SuiExtraValueArgs, ParseError>,
    Seq<Token>,
) {
    let (reference, rest) = reference_form(tokens, "object"@);
    match reference {
        Err(e) => (Err(e), rest),
        Ok((fake_id, version)) => (Ok(SuiExtraValueArgs::Object(fake_id, version)), rest),
    }
}

/// The `receiving(..)` form that `tokens` start with, and the tokens left.
pub open spec fn receiving_form(tokens: Seq<Token>) -> (
    Result<SuiExtraValueArgs, ParseError>,
    Seq<Token>,
) {
    let (reference, rest) = reference_form(tokens, "receiving"@);
    match reference {
        Err(e) => (Err(e), rest),
        Ok((fake_id, version)) => (Ok(SuiExtraValueArgs::Receiving(fake_id, version)), rest),
    }
}

/// The `digest(NAME)` form that `tokens` start with, and the tokens left.
pub open spec fn digest_form(tokens: Seq<Token>) -> (
    Result<SuiExtraValueArgs, ParseError>,
    Seq<Token>,
) {
    let t1 = after(tokens);
    let t2 = after(t1);
    let t3 = after(t2);
    let t4 = after(t3);
    match expect(tokens, ValueToken::Ident) {
        Err(e) => (Err(e), t1),
        Ok(word) => if word.text@ != "digest"@ {
            (Err(ParseError::UnexpectedIdent(word.text)), t1)
        } else {
            match expect(t1, ValueToken::LParen) {
                Err(e) => (Err(e), t2),
                Ok(_) => match expect(t2, ValueToken::Ident) {
                    Err(e) => (Err(e), t3),
                    Ok(package) => match expect(t3, ValueToken::RParen) {
                        Err(e) => (Err(e), t4),
                        Ok(_) => (Ok(SuiExtraValueArgs::Digest(package.text)), t4),
                    },
                },
            }
        },
    }
}

/// The reference form that `tokens` start with, if their first token is one
/// of the three keywords, and the tokens left. Anything else belongs to the
/// base grammar, and nothing is taken.
pub open spec fn value_form(tokens: Seq<Token>) -> Option<
    (Result<SuiExtraValueArgs, ParseError>, Seq<Token>),
> {
    if tokens.len() == 0 || tokens[0].kind != ValueToken::Ident {
        None
    } else if tokens[0].text@ == "object"@ {
        Some(object_form(tokens))
    } else if tokens[0].text@ == "digest"@ {
        Some(digest_form(tokens))
    } else if tokens[0].text@ == "receiving"@ {
        Some(receiving_form(tokens))
    } else {
        None
    }
}

/// Whether the text of `token` is `word`.
fn has_text(token: &Token, word: &str) -> (same: bool)
    ensures
        same == (token.text@ == word@),
{
    token.text == word.to_owned()
}

/// The 64-bit number that a number token denotes.
fn number_u64(token: &Token) -> (number: Result<u64, ParseError>)
    ensures
        number == (match u64_of(*token) {
            Some(v) => Ok::<u64, ParseError>(v),
            None => Err::<u64, ParseError>(ParseError::InvalidU64(token.text)),
        }),
{
    let small = match &token.number {
        Some(n) => n.as_u64(),
        None => None,
    };
    match small {
        Some(v) => Ok(v),
        None => Err(ParseError::InvalidU64(token.text.clone())),
    }
}

impl SuiExtraValueArgs {
    pub fn parse_object_value(parser: &mut Parser) -> (parsed: Result<Self, ParseError>)
        ensures
            (parsed, final(parser).remaining()) == object_form(old(parser).remaining()),
    {
        let (fake_id, version) = Self::parse_receiving_or_object_value(parser, "object")?;
        Ok(SuiExtraValueArgs::Object(fake_id, version))
    }

    pub fn parse_receiving_value(parser: &mut Parser) -> (parsed: Result<Self, ParseError>)
        ensures
            (parsed, final(parser).remaining()) == receiving_form(old(parser).remaining()),
    {
        let (fake_id, version) = Self::parse_receiving_or_object_value(parser, "receiving")?;
        Ok(SuiExtraValueArgs::Receiving(fake_id, version))
    }

    pub fn parse_digest_value(parser: &mut Parser) -> (parsed: Result<Self, ParseError>)
        ensures
            (parsed, final(parser).remaining()) == digest_form(old(parser).remaining()),
    {
        let contents = parser.advance(ValueToken::Ident)?;
        if !has_text(contents, "digest") {
            return Err(ParseError::UnexpectedIdent(contents.text.clone()));
        }
        parser.advance(ValueToken::LParen)?;
        let package = parser.advance(ValueToken::Ident)?;
        parser.advance(ValueToken::RParen)?;
        Ok(SuiExtraValueArgs::Digest(package.text.clone()))
    }

    pub fn parse_receiving_or_object_value(parser: &mut Parser, ident_name: &str) -> (parsed:
        Result<ObjectReference, ParseError>)
        ensures
            (parsed, final(parser).remaining()) == reference_form(
                old(parser).remaining(),
                ident_name@,
            ),
    {
        let contents = parser.advance(ValueToken::Ident)?;
        if !has_text(contents, ident_name) {
            return Err(ParseError::UnexpectedIdent(contents.text.clone()));
        }
        parser.advance(ValueToken::LParen)?;
        let i_token = parser.advance(ValueToken::Number)?;
        let i = match &i_token.number {
            Some(i) => *i,
            None => {
                return Err(ParseError::InvalidU256(i_token.text.clone()));
            },
        };
        let fake_id = if let Some(ValueToken::Comma) = parser.peek_tok() {
            parser.advance(ValueToken::Comma)?;
            let j_token = parser.advance(ValueToken::Number)?;
            let j = number_u64(j_token)?;
            match i.as_u64() {
                Some(i) => FakeID::Enumerated(i, j),
                None => {
                    return Err(ParseError::ObjectIdTooLarge);
                },
            }
        } else {
            FakeID::Known(ObjectID::from_u256(&i))
        };
        parser.advance(ValueToken::RParen)?;
        let version = if let Some(ValueToken::AtSign) = parser.peek_tok() {
            parser.advance(ValueToken::AtSign)?;
            let v_token = parser.advance(ValueToken::Number)?;
            let v = number_u64(v_token)?;
            Some(SequenceNumber::from_u64(v))
        } else {
            None
        };
        Ok((fake_id, version))
    }

    /// Parses the reference form that the stream starts with. Where the
    /// stream starts with none, nothing is taken and the result is `None`.
    pub fn parse_value(parser: &mut Parser) -> (parsed: Option<Result<Self, ParseError>>)
        ensures
            match value_form(old(parser).remaining()) {
                Some((result, rest)) => parsed == Some(result) && final(parser).remaining()
                    == rest,
                None => parsed is None && final(parser).remaining() == old(parser).remaining(),
            },
    {
        let next = match parser.peek() {
            Some(token) => token,
            None => {
                return None;
            },
        };
        if next.kind != ValueToken::Ident {
            None
        } else if has_text(next, "object") {
            Some(Self::parse_object_value(parser))
        } else if has_text(next, "digest") {
            Some(Self::parse_digest_value(parser))
        } else if has_text(next, "receiving") {
            Some(Self::parse_receiving_value(parser))
        } else {
            None
        }
    }
}

/// A value of a script, ready to be resolved into a transaction input.
#[derive(Debug, PartialEq, Eq)]
pub enum SuiValue {
    /// A plain value of the base value language.
    MoveValue(MoveValue),
    /// The object behind a handle, at a version if one is pinned.
    Object(FakeID, Option<SequenceNumber>),
    /// A vector of objects.
    ObjVec(Vec<ObjectReference>),
    /// The digest of the package staged under a name.
    Digest(String),
    /// The object behind a handle, to be received.
    Receiving(FakeID, Option<SequenceNumber>),
}

/// The five kinds of `SuiValue`.
#[derive(Clone, Copy, Debug, PartialEq, Eq, Hash, Structural)]
pub enum ValueKind {
    MoveValue,
    Object,
    ObjVec,
    Digest,
    Receiving,
}

/// An element of a vector or a field of a struct is of a kind that cannot
/// stand there.
#[derive(Clone, Copy, Debug, PartialEq, Eq, Hash, Structural)]
pub struct TypeMismatch {
    /// The place of the first such element.
    pub index: usize,
    pub found: ValueKind,
    pub expected: ValueKind,
}

/// Why a value does not resolve.
#[derive(Clone, Debug, PartialEq, Eq)]
pub enum ResolveError {
    /// The handle is bound to no object.
    UnknownObject(FakeID),
    /// The store does not hold the object at the version asked for, or did
    /// not answer.
    CouldNotLoadObject(ObjectID),
    /// A vector of objects is no single transaction input.
    ObjVecNotSupported,
    /// No package is staged under the name.
    UnboundStagedPackage(String),
    /// The value has no serialized form.
    NotSerializable,
}

/// The kind that every element of a vector has to have: that of an object
/// reference where the first element is one, else that of a plain value.
pub open spec fn element_kind(elems: Seq<SuiValue>) -> ValueKind {
    if elems.len() > 0 && elems[0].kind() == ValueKind::Object {
        ValueKind::Object
    } else {
        ValueKind::MoveValue
    }
}

/// The plain values that `values` hold, in order.
pub open spec fn plain_values(values: Seq<SuiValue>) -> Seq<MoveValue> {
    Seq::new(values.len(), |k: int| values[k]->MoveValue_0)
}

/// The object references that `values` hold, in order.
pub open spec fn object_references(values: Seq<SuiValue>) -> Seq<ObjectReference> {
    Seq::new(values.len(), |k: int| (values[k]->Object_0, values[k]->Object_1))
}

/// The transaction input for an ordinary reference to `object`: shared and
/// mutable where the object is shared, else pinned to its exact version.
pub open spec fn shared_or_owned(object: Object) -> ObjectArg {
    match object.owner {
        Owner::Shared { initial_shared_version } => ObjectArg::SharedObject {
            id: object.id,
            initial_shared_version,
            mutable: true,
        },
        _ => ObjectArg::ImmOrOwnedObject(object.reference()),
    }
}

/// The object that `store` holds for `id`: at `version` where one is pinned,
/// else the latest.
pub open spec fn stored<S: ObjectStore>(
    store: &S,
    id: ObjectID,
    version: Option<SequenceNumber>,
) -> Option<Object> {
    match version {
        Some(v) => store.at_version(id, v),
        None => store.latest(id),
    }
}

/// What a load gives, for each answer of the store.
pub open spec fn loaded(id: ObjectID, found: Result<Option<Object>, StorageError>) -> Result<
    Object,
    ResolveError,
> {
    match found {
        Ok(Some(object)) => Ok(object),
        _ => Err(ResolveError::CouldNotLoadObject(id)),
    }
}

/// The object that a reference resolves to when the store answers.
pub open spec fn object_resolution<S: ObjectStore>(
    adapter: &SuiTestAdapter<S>,
    fake_id: FakeID,
    version: Option<SequenceNumber>,
) -> Result<Object, ResolveError> {
    match adapter.real_id(fake_id) {
        None => Err(ResolveError::UnknownObject(fake_id)),
        Some(id) => loaded(id, Ok(stored(&adapter.store(), id, version))),
    }
}

/// Whether `error` is what resolving `fake_id` gives when the store does not
/// answer.
pub open spec fn store_failure<S: ObjectStore>(
    adapter: &SuiTestAdapter<S>,
    fake_id: FakeID,
    error: ResolveError,
) -> bool {
    &&& !adapter.store().always_answers()
    &&& adapter.real_id(fake_id) matches Some(id)
    &&& error == ResolveError::CouldNotLoadObject(id)
}

/// The input that an ordinary reference resolves to when the store answers.
pub open spec fn object_arg_resolution<S: ObjectStore>(
    adapter: &SuiTestAdapter<S>,
    fake_id: FakeID,
    version: Option<SequenceNumber>,
) -> Result<ObjectArg, ResolveError> {
    match object_resolution(adapter, fake_id, version) {
        Ok(object) => Ok(shared_or_owned(object)),
        Err(e) => Err(e),
    }
}

/// The input that a receiving reference resolves to when the store answers.
pub open spec fn receiving_arg_resolution<S: ObjectStore>(
    adapter: &SuiTestAdapter<S>,
    fake_id: FakeID,
    version: Option<SequenceNumber>,
) -> Result<ObjectArg, ResolveError> {
    match object_resolution(adapter, fake_id, version) {
        Ok(object) => Ok(ObjectArg::Receiving(object.reference())),
        Err(e) => Err(e),
    }
}

/// The plain-data input with the bytes `serialized`, where there are any.
pub open spec fn pure_resolution(serialized: Option<Seq<u8>>) -> Result<CallArgView, ResolveError> {
    match serialized {
        Some(bytes) => Ok(CallArgView::Pure(bytes)),
        None => Err(ResolveError::NotSerializable),
    }
}

/// The transaction input that `value` resolves to when the store answers.
pub open spec fn call_arg_resolution<S: ObjectStore>(
    adapter: &SuiTestAdapter<S>,
    value: SuiValue,
) -> Result<CallArgView, ResolveError> {
    match value {
        SuiValue::Object(fake_id, version) => match object_arg_resolution(
            adapter,
            fake_id,
            version,
        ) {
            Ok(object) => Ok(CallArgView::Object(object)),
            Err(e) => Err(e),
        },
        SuiValue::MoveValue(v) => pure_resolution(serialized_value(v)),
        SuiValue::Receiving(fake_id, version) => match receiving_arg_resolution(
            adapter,
            fake_id,
            version,
        ) {
            Ok(object) => Ok(CallArgView::Object(object)),
            Err(e) => Err(e),
        },
        SuiValue::ObjVec(_) => Err(ResolveError::ObjVecNotSupported),
        SuiValue::Digest(package) => match adapter.staged(package@) {
            None => Err(ResolveError::UnboundStagedPackage(package)),
            Some(staged) => pure_resolution(bcs_of_bytes(staged.digest@)),
        },
    }
}

/// The inputs that the references `references` resolve to when the store
/// answers: one for each, or the error of the first that does not resolve.
pub open spec fn object_vector_resolution<S: ObjectStore>(
    adapter: &SuiTestAdapter<S>,
    references: Seq<ObjectReference>,
) -> Result<Seq<ObjectArg>, ResolveError>
    decreases references.len(),
{
    if references.len() == 0 {
        Ok(Seq::empty())
    } else {
        match object_vector_resolution(adapter, references.drop_last()) {
            Err(e) => Err(e),
            Ok(objects) => match object_arg_resolution(
                adapter,
                references.last().0,
                references.last().1,
            ) {
                Err(e) => Err(e),
                Ok(object) => Ok(objects.push(object)),
            },
        }
    }
}

/// What `value` asks of a transaction builder when the store answers.
pub open spec fn argument_resolution<S: ObjectStore>(
    adapter: &SuiTestAdapter<S>,
    value: SuiValue,
) -> Result<BuilderCallView, ResolveError> {
    match value {
        SuiValue::ObjVec(references) => match object_vector_resolution(adapter, references@) {
            Ok(objects) => Ok(BuilderCallView::MakeObjVec(objects)),
            Err(e) => Err(e),
        },
        _ => match call_arg_resolution(adapter, value) {
            Ok(input) => Ok(BuilderCallView::Input(input)),
            Err(e) => Err(e),
        },
    }
}

/// Whether `error` is what resolving `value` into one input gives when the
/// store does not answer. Only a reference is loaded from the store: for any
/// other value, a vector of objects included, there is no such error.
pub open spec fn input_store_failure<S: ObjectStore>(
    adapter: &SuiTestAdapter<S>,
    value: SuiValue,
    error: ResolveError,
) -> bool {
    match value {
        SuiValue::Object(fake_id, _) => store_failure(adapter, fake_id, error),
        SuiValue::Receiving(fake_id, _) => store_failure(adapter, fake_id, error),
        _ => false,
    }
}

/// Whether `error` is what resolving the references `references` gives when
/// the store does not answer for one of them: every reference before that
/// one resolves, and the error is the load failure of that one.
pub open spec fn vector_store_failure<S: ObjectStore>(
    adapter: &SuiTestAdapter<S>,
    references: Seq<ObjectReference>,
    error: ResolveError,
) -> bool {
    exists|k: int|
        0 <= k < references.len() && (#[trigger] object_vector_resolution(
            adapter,
            references.take(k),
        )) is Ok && store_failure(adapter, references[k].0, error)
}

/// Whether `error` is what resolving `value` for a transaction builder gives
/// when the store does not answer.
pub open spec fn argument_store_failure<S: ObjectStore>(
    adapter: &SuiTestAdapter<S>,
    value: SuiValue,
    error: ResolveError,
) -> bool {
    match value {
        SuiValue::ObjVec(references) => vector_store_failure(adapter, references@, error),
        _ => input_store_failure(adapter, value, error),
    }
}

impl SuiValue {
    /// The kind of the value.
    pub open spec fn kind(self) -> ValueKind {
        match self {
            SuiValue::MoveValue(_) => ValueKind::MoveValue,
            SuiValue::Object(_, _) => ValueKind::Object,
            SuiValue::ObjVec(_) => ValueKind::ObjVec,
            SuiValue::Digest(_) => ValueKind::Digest,
            SuiValue::Receiving(_, _) => ValueKind::Receiving,
        }
    }

    pub fn value_kind(&self) -> (kind: ValueKind)
        ensures
            kind == self.kind(),
    {
        match self {
            SuiValue::MoveValue(_) => ValueKind::MoveValue,
            SuiValue::Object(_, _) => ValueKind::Object,
            SuiValue::ObjVec(_) => ValueKind::ObjVec,
            SuiValue::Digest(_) => ValueKind::Digest,
            SuiValue::Receiving(_, _) => ValueKind::Receiving,
        }
    }

    /// The plain value that `self` is. A value of any other kind must not be
    /// handed in.
    pub fn assert_move_value(self) -> (value: MoveValue)
        requires
            self.kind() == ValueKind::MoveValue,
        ensures
            self == SuiValue::MoveValue(value),
    {
        match self {
            SuiValue::MoveValue(v) => v,
            _ => vstd::pervasive::unreached(),
        }
    }

    /// The object reference that `self` is. A value of any other kind must
    /// not be handed in.
    pub fn assert_object(self) -> (reference: ObjectReference)
        requires
            self.kind() == ValueKind::Object,
        ensures
            self == SuiValue::Object(reference.0, reference.1),
    {
        match self {
            SuiValue::Object(id, version) => (id, version),
            _ => vstd::pervasive::unreached(),
        }
    }

    /// The object that was loaded for `id`, given the store's answer.
    pub fn loaded_object(id: ObjectID, found: Result<Option<Object>, StorageError>) -> (object:
        Result<Object, ResolveError>)
        ensures
            object == loaded(id, found),
    {
        match found {
            Ok(Some(object)) => Ok(object),
            _ => Err(ResolveError::CouldNotLoadObject(id)),
        }
    }

    /// Loads the object behind `fake_id`: at `version` where one is pinned,
    /// else its latest version.
    pub fn resolve_object<S: ObjectStore>(
        fake_id: FakeID,
        version: Option<SequenceNumber>,
        test_adapter: &SuiTestAdapter<S>,
    ) -> (object: Result<Object, ResolveError>)
        ensures
            object == object_resolution(test_adapter, fake_id, version) || (object matches Err(e)
                && store_failure(test_adapter, fake_id, e)),
    {
        let id = match test_adapter.fake_to_real_object_id(fake_id) {
            Some(id) => id,
            None => {
                return Err(ResolveError::UnknownObject(fake_id));
            },
        };
        let found = if let Some(v) = version {
            test_adapter.executor().get_object_by_key(&id, v)
        } else {
            test_adapter.executor().get_object(&id)
        };
        Self::loaded_object(id, found)
    }

    /// The input that receives `object`, whoever owns it.
    pub fn receiving_arg_of(object: &Object) -> (arg: ObjectArg)
        ensures
            arg == ObjectArg::Receiving(object.reference()),
    {
        ObjectArg::Receiving(object.compute_object_reference())
    }

    /// The input for an ordinary reference to `object`.
    pub fn object_arg_of(object: &Object) -> (arg: ObjectArg)
        ensures
            arg == shared_or_owned(*object),
    {
        let id = object.id();
        match object.owner {
            Owner::Shared { initial_shared_version } => ObjectArg::SharedObject {
                id,
                initial_shared_version,
                mutable: true,
            },
            Owner::AddressOwner(_) | Owner::ObjectOwner(_) | Owner::Immutable => {
                ObjectArg::ImmOrOwnedObject(object.compute_object_reference())
            },
        }
    }

    pub fn receiving_arg<S: ObjectStore>(
        fake_id: FakeID,
        version: Option<SequenceNumber>,
        test_adapter: &SuiTestAdapter<S>,
    ) -> (arg: Result<ObjectArg, ResolveError>)
        ensures
            arg == receiving_arg_resolution(test_adapter, fake_id, version) || (arg matches Err(e)
                && store_failure(test_adapter, fake_id, e)),
    {
        let object = Self::resolve_object(fake_id, version, test_adapter)?;
        Ok(Self::receiving_arg_of(&object))
    }

    pub fn object_arg<S: ObjectStore>(
        fake_id: FakeID,
        version: Option<SequenceNumber>,
        test_adapter: &SuiTestAdapter<S>,
    ) -> (arg: Result<ObjectArg, ResolveError>)
        ensures
            arg == object_arg_resolution(test_adapter, fake_id, version) || (arg matches Err(e)
                && store_failure(test_adapter, fake_id, e)),
    {
        let object = Self::resolve_object(fake_id, version, test_adapter)?;
        Ok(Self::object_arg_of(&object))
    }

    /// The plain-data input with the bytes `serialized`, where there are any.
    pub fn pure_arg(serialized: Option<Vec<u8>>) -> (arg: Result<CallArg, ResolveError>)
        ensures
            match arg {
                Ok(input) => Ok::<CallArgView, ResolveError>(input@),
                Err(e) => Err::<CallArgView, ResolveError>(e),
            } == pure_resolution(
                match serialized {
                    Some(bytes) => Some(bytes@),
                    None => None,
                },
            ),
    {
        match serialized {
            Some(bytes) => Ok(CallArg::Pure(bytes)),
            None => Err(ResolveError::NotSerializable),
        }
    }

    /// Resolves the value into one transaction input.
    pub fn into_call_arg<S: ObjectStore>(self, test_adapter: &SuiTestAdapter<S>) -> (arg: Result<
        CallArg,
        ResolveError,
    >)
        ensures
            match arg {
                Ok(input) => Ok::<CallArgView, ResolveError>(input@) == call_arg_resolution(
                    test_adapter,
                    self,
                ),
                Err(e) => Err::<CallArgView, ResolveError>(e) == call_arg_resolution(
                    test_adapter,
                    self,
                ) || input_store_failure(test_adapter, self, e),
            },
    {
        match self {
            SuiValue::Object(fake_id, version) => {
                Ok(CallArg::Object(Self::object_arg(fake_id, version, test_adapter)?))
            },
            SuiValue::MoveValue(v) => Self::pure_arg(simple_serialize(&v)),
            SuiValue::Receiving(fake_id, version) => {
                Ok(CallArg::Object(Self::receiving_arg(fake_id, version, test_adapter)?))
            },
            SuiValue::ObjVec(_) => Err(ResolveError::ObjVecNotSupported),
            SuiValue::Digest(package) => {
                match test_adapter.staged_package(&package) {
                    None => Err(ResolveError::UnboundStagedPackage(package)),
                    Some(staged) => Self::pure_arg(bcs_bytes(&staged.digest)),
                }
            },
        }
    }

    /// Resolves the value into what it asks of a transaction builder: a
    /// vector of objects as one vector argument, anything else as one input.
    /// Where any part does not resolve, nothing is asked of the builder.
    pub fn into_argument<S: ObjectStore>(self, test_adapter: &SuiTestAdapter<S>) -> (call: Result<
        BuilderCall,
        ResolveError,
    >)
        ensures
            match call {
                Ok(c) => Ok::<BuilderCallView, ResolveError>(c@) == argument_resolution(
                    test_adapter,
                    self,
                ),
                Err(e) => Err::<BuilderCallView, ResolveError>(e) == argument_resolution(
                    test_adapter,
                    self,
                ) || argument_store_failure(test_adapter, self, e),
            },
    {
        match self {
            SuiValue::ObjVec(references) => {
                let mut objects: Vec<ObjectArg> = Vec::new();
                let mut k: usize = 0;
                assert(references@.take(0) == Seq::<ObjectReference>::empty());
                while k < references.len()
                    invariant
                        0 <= k <= references@.len(),
                        self == SuiValue::ObjVec(references),
                        object_vector_resolution(test_adapter, references@.take(k as int)) == Ok::<
                            Seq<ObjectArg>,
                            ResolveError,
                        >(objects@),
                    decreases references@.len() - k,
                {
                    let (fake_id, version) = references[k];
                    proof {
                        let upto = references@.take(k + 1);
                        assert(upto.drop_last() == references@.take(k as int));
                        assert(upto.last() == references@[k as int]);
                    }
                    match Self::object_arg(fake_id, version, test_adapter) {
                        Ok(object) => {
                            objects.push(object);
                        },
                        Err(e) => {
                            proof {
                                if !store_failure(test_adapter, fake_id, e) {
                                    lemma_first_error_stays(test_adapter, references@, k + 1, e);
                                }
                            }
                            return Err(e);
                        },
                    }
                    k = k + 1;
                }
                assert(references@.take(k as int) == references@);
                Ok(BuilderCall::MakeObjVec(objects))
            },
            value => {
                let call_arg = value.into_call_arg(test_adapter)?;
                Ok(BuilderCall::Input(call_arg))
            },
        }
    }
}

/// The place in `values` of the first value whose kind is not `expected`.
fn find_mismatch(values: &Vec<SuiValue>, expected: ValueKind) -> (found: Option<TypeMismatch>)
    ensures
        match found {
            Some(m) => {
                &&& 0 <= m.index < values@.len()
                &&& m.found == values@[m.index as int].kind()
                &&& m.found != expected
                &&& m.expected == expected
                &&& forall|j: int| 0 <= j < m.index ==> values@[j].kind() == expected
            },
            None => forall|j: int| 0 <= j < values@.len() ==> values@[j].kind() == expected,
        },
{
    let mut k: usize = 0;
    while k < values.len()
        invariant
            0 <= k <= values@.len(),
            forall|j: int| 0 <= j < k ==> values@[j].kind() == expected,
        decreases values@.len() - k,
    {
        let found = values[k].value_kind();
        if found != expected {
            return Some(TypeMismatch { index: k, found, expected });
        }
        k = k + 1;
    }
    None
}

/// The plain values of `values`, moved out in order.
fn into_plain_values(values: Vec<SuiValue>) -> (plain: Vec<MoveValue>)
    requires
        forall|j: int| 0 <= j < values@.len() ==> values@[j].kind() == ValueKind::MoveValue,
    ensures
        plain@ == plain_values(values@),
{
    let ghost all = values@;
    let mut plain: Vec<MoveValue> = Vec::new();
    for value in it: values
        invariant
            it.seq() == all,
            forall|j: int| 0 <= j < all.len() ==> all[j].kind() == ValueKind::MoveValue,
            plain@.len() == it.index(),
            forall|j: int| 0 <= j < it.index() ==> all[j] == SuiValue::MoveValue(plain@[j]),
    {
        plain.push(value.assert_move_value());
    }
    assert(plain@ =~= plain_values(all));
    plain
}

/// The object references of `values`, in order.
fn into_object_references(values: Vec<SuiValue>) -> (references: Vec<ObjectReference>)
    requires
        forall|j: int| 0 <= j < values@.len() ==> values@[j].kind() == ValueKind::Object,
    ensures
        references@ == object_references(values@),
{
    let ghost all = values@;
    let mut references: Vec<ObjectReference> = Vec::new();
    for value in it: values
        invariant
            it.seq() == all,
            forall|j: int| 0 <= j < all.len() ==> all[j].kind() == ValueKind::Object,
            references@.len() == it.index(),
            forall|j: int|
                0 <= j < it.index() ==> all[j] == SuiValue::Object(
                    references@[j].0,
                    references@[j].1,
                ),
    {
        references.push(value.assert_object());
    }
    assert(references@ =~= object_references(all));
    references
}

impl SuiExtraValueArgs {
    /// A plain value as a value of a script.
    pub fn move_value_into_concrete(v: MoveValue) -> (value: Result<SuiValue, TypeMismatch>)
        ensures
            value == Ok::<SuiValue, TypeMismatch>(SuiValue::MoveValue(v)),
    {
        Ok(SuiValue::MoveValue(v))
    }

    /// The value of a vector literal with the elements `elems`. Where the
    /// first element is an object reference, every element has to be one,
    /// and the vector is a vector of objects; else every element has to be a
    /// plain value, and the vector is a plain value.
    pub fn concrete_vector(elems: Vec<SuiValue>) -> (value: Result<SuiValue, TypeMismatch>)
        ensures
            match value {
                Ok(SuiValue::ObjVec(references)) => {
                    &&& element_kind(elems@) == ValueKind::Object
                    &&& forall|j: int| 0 <= j < elems@.len() ==> elems@[j].kind() == ValueKind::Object
                    &&& references@ == object_references(elems@)
                },
                Ok(v) => {
                    &&& element_kind(elems@) == ValueKind::MoveValue
                    &&& forall|j: int|
                        0 <= j < elems@.len() ==> elems@[j].kind() == ValueKind::MoveValue
                    &&& v == SuiValue::MoveValue(vector_value(plain_values(elems@)))
                },
                Err(m) => {
                    &&& 0 <= m.index < elems@.len()
                    &&& m.expected == element_kind(elems@)
                    &&& m.found == elems@[m.index as int].kind()
                    &&& m.found != m.expected
                    &&& forall|j: int| 0 <= j < m.index ==> elems@[j].kind() == m.expected
                },
            },
    {
        let objects = elems.len() > 0 && elems[0].value_kind() == ValueKind::Object;
        if objects {
            if let Some(m) = find_mismatch(&elems, ValueKind::Object) {
                return Err(m);
            }
            Ok(SuiValue::ObjVec(into_object_references(elems)))
        } else {
            if let Some(m) = find_mismatch(&elems, ValueKind::MoveValue) {
                return Err(m);
            }
            Ok(SuiValue::MoveValue(new_vector(into_plain_values(elems))))
        }
    }

    /// The value of a struct literal with the fields `values`, each of which
    /// has to be a plain value.
    pub fn concrete_struct(values: Vec<SuiValue>) -> (value: Result<SuiValue, TypeMismatch>)
        ensures
            match value {
                Ok(v) => {
                    &&& forall|j: int|
                        0 <= j < values@.len() ==> values@[j].kind() == ValueKind::MoveValue
                    &&& v == SuiValue::MoveValue(struct_value(plain_values(values@)))
                },
                Err(m) => {
                    &&& 0 <= m.index < values@.len()
                    &&& m.expected == ValueKind::MoveValue
                    &&& m.found == values@[m.index as int].kind()
                    &&& m.found != m.expected
                    &&& forall|j: int| 0 <= j < m.index ==> values@[j].kind() == m.expected
                },
            },
    {
        if let Some(m) = find_mismatch(&values, ValueKind::MoveValue) {
            return Err(m);
        }
        Ok(SuiValue::MoveValue(new_struct(into_plain_values(values))))
    }

    /// The reference form as a value of a script.
    pub fn into_concrete_value(self) -> (value: Result<SuiValue, TypeMismatch>)
        ensures
            value == Ok::<SuiValue, TypeMismatch>(
                match self {
                    SuiExtraValueArgs::Object(id, version) => SuiValue::Object(id, version),
                    SuiExtraValueArgs::Digest(package) => SuiValue::Digest(package),
                    SuiExtraValueArgs::Receiving(id, version) => SuiValue::Receiving(id, version),
                },
            ),
    {
        match self {
            SuiExtraValueArgs::Object(id, version) => Ok(SuiValue::Object(id, version)),
            SuiExtraValueArgs::Digest(package) => Ok(SuiValue::Digest(package)),
            SuiExtraValueArgs::Receiving(id, version) => Ok(SuiValue::Receiving(id, version)),
        }
    }
}

/// The handle that a command line names, from the parts of its text: the
/// text before the first comma and, where there is a comma, the text after
/// it, each as a number token. Two parts are the two 64-bit numbers of an
/// enumerated handle; one part is the address of a known handle.
pub open spec fn fake_id_form(first: Token, second: Option<Token>) -> Result<FakeID, ParseError> {
    match second {
        Some(second) => match u64_of(first) {
            None => Err(ParseError::InvalidU64(first.text)),
            Some(i) => match u64_of(second) {
                None => Err(ParseError::InvalidU64(second.text)),
                Some(j) => Ok(FakeID::Enumerated(i, j)),
            },
        },
        None => match first.number {
            None => Err(ParseError::InvalidU256(first.text)),
            Some(n) => Ok(FakeID::Known(ObjectID::spec_from_u256(n))),
        },
    }
}

pub fn parse_fake_id(first: &Token, second: Option<&Token>) -> (fake_id: Result<
    FakeID,
    ParseError,
>)
    ensures
        fake_id == fake_id_form(
            *first,
            match second {
                Some(token) => Some(*token),
                None => None,
            },
        ),
{
    Ok(
        if let Some(second) = second {
            let i = number_u64(first)?;
            let j = number_u64(second)?;
            FakeID::Enumerated(i, j)
        } else {
            match &first.number {
                Some(n) => FakeID::Known(ObjectID::from_u256(n)),
                None => {
                    return Err(ParseError::InvalidU256(first.text.clone()));
                },
            }
        },
    )
}

/// How far an upgrade may change a package.
#[derive(Clone, Copy, Debug, PartialEq, Eq, Hash, Structural)]
pub enum UpgradePolicy {
    Compatible,
    Additive,
    DepOnly,
}

/// A text that names no upgrade policy; holds the text.
#[derive(Clone, Debug, PartialEq, Eq)]
pub struct InvalidUpgradePolicy(pub String);

/// The upgrade policy that `name` names, if it names one.
pub open spec fn policy_named(name: Seq<char>) -> Option<UpgradePolicy> {
    if name == "compatible"@ {
        Some(UpgradePolicy::Compatible)
    } else if name == "additive"@ {
        Some(UpgradePolicy::Additive)
    } else if name == "dep_only"@ {
        Some(UpgradePolicy::DepOnly)
    } else {
        None
    }
}

/// Whether `a` and `b` are the same text.
fn same_text(a: &str, b: &str) -> (same: bool)
    ensures
        same == (a@ == b@),
{
    a.to_owned() == b.to_owned()
}

pub fn parse_policy(x: &str) -> (policy: Result<UpgradePolicy, InvalidUpgradePolicy>)
    ensures
        match policy {
            Ok(p) => policy_named(x@) == Some(p),
            Err(e) => policy_named(x@) is None && e.0@ == x@,
        },
{
    if same_text(x, "compatible") {
        Ok(UpgradePolicy::Compatible)
    } else if same_text(x, "additive") {
        Ok(UpgradePolicy::Additive)
    } else if same_text(x, "dep_only") {
        Ok(UpgradePolicy::DepOnly)
    } else {
        Err(InvalidUpgradePolicy(x.to_owned()))
    }
}

/// An error among the first `upto` references is the error of the whole
/// vector.
pub proof fn lemma_first_error_stays<S: ObjectStore>(
    adapter: &SuiTestAdapter<S>,
    references: Seq<ObjectReference>,
    upto: int,
    error: ResolveError,
)
    requires
        0 <= upto <= references.len(),
        object_vector_resolution(adapter, references.take(upto)) == Err::<
            Seq<ObjectArg>,
            ResolveError,
        >(error),
    ensures
        object_vector_resolution(adapter, references) == Err::<Seq<ObjectArg>, ResolveError>(
            error,
        ),
    decreases references.len() - upto,
{
    if upto < references.len() {
        let longer = references.take(upto + 1);
        assert(longer.drop_last() == references.take(upto));
        lemma_first_error_stays(adapter, references, upto + 1, error);
    } else {
        assert(references.take(upto) == references);
    }
}

/// The reference `handle` with the version pin that `tokens` start with, and
/// the tokens left after the pin.
pub open spec fn pinned(handle: FakeID, tokens: Seq<Token>) -> (
    Result<ObjectReference, ParseError>,
    Seq<Token>,
) {
    match version_form(tokens).0 {
        Ok(version) => (Ok((handle, version)), version_form(tokens).1),
        Err(e) => (Err(e), version_form(tokens).1),
    }
}

/// `keyword(I, J)`, with `I` and `J` at most `u64::MAX`, is the enumerated
/// handle `(I, J)`, with the version pin that follows it, if any.
pub proof fn law_enumerated_handle(tokens: Seq<Token>, keyword: Seq<char>, i: U256, j: u64)
    requires
        tokens.len() >= 6,
        tokens[0].kind == ValueToken::Ident,
        tokens[0].text@ == keyword,
        tokens[1].kind == ValueToken::LParen,
        tokens[2].kind == ValueToken::Number,
        tokens[2].number == Some(i),
        tokens[3].kind == ValueToken::Comma,
        tokens[4].kind == ValueToken::Number,
        u64_of(tokens[4]) == Some(j),
        tokens[5].kind == ValueToken::RParen,
        i.value() <= u64::MAX,
    ensures
        reference_form(tokens, keyword) == pinned(
            FakeID::Enumerated(i.value() as u64, j),
            tokens.skip(6),
        ),
{
    let t3 = after(after(after(tokens)));
    assert(t3[0] == tokens[3]);
    assert(after(t3)[0] == tokens[4]);
    assert(after(after(t3))[0] == tokens[5]);
    assert(after(after(after(t3))) =~= tokens.skip(6));
}

/// `keyword(I, J)` with `I` above `u64::MAX` is refused, whatever `J` is.
pub proof fn law_enumerated_handle_too_large(
    tokens: Seq<Token>,
    keyword: Seq<char>,
    i: U256,
    j: u64,
)
    requires
        tokens.len() >= 5,
        tokens[0].kind == ValueToken::Ident,
        tokens[0].text@ == keyword,
        tokens[1].kind == ValueToken::LParen,
        tokens[2].kind == ValueToken::Number,
        tokens[2].number == Some(i),
        tokens[3].kind == ValueToken::Comma,
        tokens[4].kind == ValueToken::Number,
        u64_of(tokens[4]) == Some(j),
        i.value() > u64::MAX,
    ensures
        reference_form(tokens, keyword).0 == Err::<ObjectReference, ParseError>(
            ParseError::ObjectIdTooLarge,
        ),
{
    let t3 = after(after(after(tokens)));
    assert(t3[0] == tokens[3]);
    assert(after(t3)[0] == tokens[4]);
}

/// `keyword(N)` is the known handle whose address bytes are the
/// little-endian bytes of `N` in reverse, whatever `N` is, with the version
/// pin that follows it, if any.
pub proof fn law_known_handle(tokens: Seq<Token>, keyword: Seq<char>, n: U256)
    requires
        tokens.len() >= 4,
        tokens[0].kind == ValueToken::Ident,
        tokens[0].text@ == keyword,
        tokens[1].kind == ValueToken::LParen,
        tokens[2].kind == ValueToken::Number,
        tokens[2].number == Some(n),
        tokens[3].kind == ValueToken::RParen,
    ensures
        reference_form(tokens, keyword) == pinned(
            FakeID::Known(ObjectID::spec_from_u256(n)),
            tokens.skip(4),
        ),
        ObjectID::spec_from_u256(n).0@ == n.le_bytes@.reverse(),
{
    let t3 = after(after(after(tokens)));
    assert(t3[0] == tokens[3]);
    assert(after(t3) =~= tokens.skip(4));
    crate::base_types::lemma_array_of(n.le_bytes@.reverse());
}

/// `@V` after a reference, with `V` at most `u64::MAX`, pins the version
/// `V`; anything else after a reference, or nothing, pins none and stays in
/// the stream.
pub proof fn law_version_form(tokens: Seq<Token>, v: u64)
    ensures
        tokens.len() >= 2 && tokens[0].kind == ValueToken::AtSign && tokens[1].kind
            == ValueToken::Number && u64_of(tokens[1]) == Some(v) ==> version_form(tokens) == (
            Ok::<Option<SequenceNumber>, ParseError>(Some(SequenceNumber(v))),
            tokens.skip(2),
        ),
        tokens.len() == 0 || tokens[0].kind != ValueToken::AtSign ==> version_form(tokens) == (
            Ok::<Option<SequenceNumber>, ParseError>(None),
            tokens,
        ),
{
    if tokens.len() >= 2 {
        assert(after(tokens)[0] == tokens[1]);
        assert(after(after(tokens)) =~= tokens.skip(2));
    }
}

/// A reference without a version pin resolves to the latest version that the
/// store holds; one with a pin resolves to exactly that version, and to no
/// object where the store does not hold that version, whatever else it holds.
pub proof fn law_version_pin<S: ObjectStore>(
    adapter: &SuiTestAdapter<S>,
    fake_id: FakeID,
    id: ObjectID,
    version: SequenceNumber,
)
    requires
        adapter.real_id(fake_id) == Some(id),
    ensures
        object_resolution(adapter, fake_id, None) == loaded(
            id,
            Ok(adapter.store().latest(id)),
        ),
        object_resolution(adapter, fake_id, Some(version)) == loaded(
            id,
            Ok(adapter.store().at_version(id, version)),
        ),
        adapter.store().at_version(id, version) is None ==> object_resolution(
            adapter,
            fake_id,
            Some(version),
        ) == Err::<Object, ResolveError>(ResolveError::CouldNotLoadObject(id)),
{
}

/// An ordinary reference to a shared object is a shared input with mutable
/// access; one to any other object is an input pinned to the object's exact
/// version.
pub proof fn law_ownership_branch(object: Object)
    ensures
        object.owner matches Owner::Shared { initial_shared_version } ==> shared_or_owned(object)
            == (ObjectArg::SharedObject { id: object.id, initial_shared_version, mutable: true }),
        !(object.owner is Shared) ==> shared_or_owned(object) == ObjectArg::ImmOrOwnedObject(
            (object.id, object.version, object.digest),
        ),
{
}

/// A receiving reference resolves to a receiving input that does not depend
/// on who owns the object.
pub proof fn law_receiving_ignores_owner<S: ObjectStore>(
    adapter: &SuiTestAdapter<S>,
    fake_id: FakeID,
    version: Option<SequenceNumber>,
    object: Object,
)
    requires
        object_resolution(adapter, fake_id, version) == Ok::<Object, ResolveError>(object),
    ensures
        receiving_arg_resolution(adapter, fake_id, version) == Ok::<ObjectArg, ResolveError>(
            ObjectArg::Receiving((object.id, object.version, object.digest)),
        ),
{
}

/// The digest of a staged package resolves to the BCS form of the digest
/// bytes staged under the name; a name under which nothing is staged
/// resolves to the unbound-package error.
pub proof fn law_digest<S: ObjectStore>(adapter: &SuiTestAdapter<S>, package: String)
    ensures
        adapter.staged(package@) is None ==> call_arg_resolution(
            adapter,
            SuiValue::Digest(package),
        ) == Err::<CallArgView, ResolveError>(ResolveError::UnboundStagedPackage(package)),
        adapter.staged(package@) matches Some(staged) ==> call_arg_resolution(
            adapter,
            SuiValue::Digest(package),
        ) == pure_resolution(bcs_of_bytes(staged.digest@)),
{
}

} // verus!
