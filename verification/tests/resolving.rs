use move_core_types::value::{MoveStruct, MoveValue};
use sui_transactional_test_runner::args::{
    ResolveError, SuiExtraValueArgs, SuiValue, TypeMismatch, ValueKind,
};
use sui_transactional_test_runner::base_types::{
    ObjectDigest, ObjectID, SequenceNumber, SuiAddress,
};
use sui_transactional_test_runner::object::{Object, Owner};
use sui_transactional_test_runner::storage::{InMemoryStore, ObjectStore, StorageError};
use sui_transactional_test_runner::test_adapter::{FakeID, StagedPackage, SuiTestAdapter};
use sui_transactional_test_runner::transaction::{BuilderCall, CallArg, ObjectArg};

fn id(low: u8) -> ObjectID {
    let mut bytes = [0u8; 32];
    bytes[31] = low;
    ObjectID(bytes)
}

fn owned(low: u8, version: u64) -> Object {
    Object {
        id: id(low),
        version: SequenceNumber(version),
        digest: ObjectDigest([low ^ (version as u8); 32]),
        owner: Owner::AddressOwner(SuiAddress([9u8; 32])),
    }
}

fn shared(low: u8, version: u64, since: u64) -> Object {
    Object {
        owner: Owner::Shared { initial_shared_version: SequenceNumber(since) },
        ..owned(low, version)
    }
}

/// Object 1 is owned, at versions 2, 5 and 3; object 2 is shared since
/// version 4, at versions 4 and 6; object 3 is immutable; object 4 is owned
/// by object 1. Handle (0, k) stands for object k; handle (9, 9) stands for
/// object 8 and the known handle 7 for object 7, neither of which the store
/// holds.
fn scenario() -> SuiTestAdapter<InMemoryStore> {
    let mut store = InMemoryStore::new();
    store.insert(owned(1, 2));
    store.insert(owned(1, 5));
    store.insert(owned(1, 3));
    store.insert(shared(2, 4, 4));
    store.insert(shared(2, 6, 4));
    store.insert(Object { owner: Owner::Immutable, ..owned(3, 1) });
    store.insert(Object { owner: Owner::ObjectOwner(SuiAddress(id(1).0)), ..owned(4, 7) });
    let mut adapter = SuiTestAdapter::new(store);
    for k in 1..=4u8 {
        assert!(adapter.bind_object(id(k), FakeID::Enumerated(0, k as u64)));
    }
    assert!(adapter.bind_object(id(8), FakeID::Enumerated(9, 9)));
    assert!(adapter.bind_object(id(7), FakeID::Known(id(7))));
    assert!(adapter
        .stage_package("foo".to_string(), StagedPackage { digest: vec![0xaa, 0xbb, 0xcc] }));
    adapter
}

fn handle(k: u64) -> FakeID {
    FakeID::Enumerated(0, k)
}

/// A store that holds nothing and never answers.
struct SilentStore;

impl ObjectStore for SilentStore {
    fn latest(&self, _id: ObjectID) -> Option<Object> {
        None
    }

    fn at_version(&self, _id: ObjectID, _version: SequenceNumber) -> Option<Object> {
        None
    }

    fn always_answers(&self) -> bool {
        false
    }

    fn get_object(&self, _object_id: &ObjectID) -> Result<Option<Object>, StorageError> {
        Err(StorageError { message: "no answer".to_string() })
    }

    fn get_object_by_key(
        &self,
        _object_id: &ObjectID,
        _version: SequenceNumber,
    ) -> Result<Option<Object>, StorageError> {
        Err(StorageError { message: "no answer".to_string() })
    }
}

#[test]
fn store_gives_the_highest_version_as_latest() {
    let adapter = scenario();
    assert_eq!(adapter.executor().get_object(&id(1)), Ok(Some(owned(1, 5))));
    assert_eq!(adapter.executor().get_object(&id(2)), Ok(Some(shared(2, 6, 4))));
    assert_eq!(adapter.executor().get_object(&id(8)), Ok(None));
}

#[test]
fn store_gives_exact_versions_by_key() {
    let adapter = scenario();
    assert_eq!(
        adapter.executor().get_object_by_key(&id(1), SequenceNumber(3)),
        Ok(Some(owned(1, 3)))
    );
    assert_eq!(adapter.executor().get_object_by_key(&id(1), SequenceNumber(4)), Ok(None));
    assert_eq!(adapter.executor().get_object_by_key(&id(8), SequenceNumber(1)), Ok(None));
}

#[test]
fn handles_resolve_to_their_binding() {
    let adapter = scenario();
    assert_eq!(adapter.fake_to_real_object_id(handle(3)), Some(id(3)));
    assert_eq!(adapter.fake_to_real_object_id(FakeID::Known(id(7))), Some(id(7)));
    assert_eq!(adapter.fake_to_real_object_id(FakeID::Known(id(1))), None);
    assert_eq!(adapter.fake_to_real_object_id(FakeID::Enumerated(1, 0)), None);
}

#[test]
fn a_handle_and_an_identity_are_bound_once() {
    let mut adapter = scenario();
    assert!(!adapter.bind_object(id(9), handle(3)));
    assert!(!adapter.bind_object(id(3), FakeID::Enumerated(5, 5)));
    assert_eq!(adapter.fake_to_real_object_id(handle(3)), Some(id(3)));
    assert_eq!(adapter.fake_to_real_object_id(FakeID::Enumerated(5, 5)), None);
    assert!(adapter.bind_object(id(9), FakeID::Enumerated(5, 5)));
    assert_eq!(adapter.fake_to_real_object_id(FakeID::Enumerated(5, 5)), Some(id(9)));
    assert_eq!(adapter.fake_to_real_object_id(handle(3)), Some(id(3)));
}

#[test]
fn a_name_is_staged_once() {
    let mut adapter = scenario();
    assert!(!adapter.stage_package("foo".to_string(), StagedPackage { digest: vec![1] }));
    assert_eq!(
        adapter.staged_package(&"foo".to_string()),
        Some(&StagedPackage { digest: vec![0xaa, 0xbb, 0xcc] })
    );
    assert!(adapter.stage_package("bar".to_string(), StagedPackage { digest: vec![1] }));
    assert_eq!(adapter.staged_package(&"bar".to_string()), Some(&StagedPackage { digest: vec![1] }));
}

#[test]
fn unstaging_hands_the_package_back() {
    let mut adapter = scenario();
    assert!(adapter.stage_package("bar".to_string(), StagedPackage { digest: vec![1] }));
    assert_eq!(
        adapter.unstage_package(&"foo".to_string()),
        Some(StagedPackage { digest: vec![0xaa, 0xbb, 0xcc] })
    );
    assert_eq!(adapter.unstage_package(&"foo".to_string()), None);
    assert_eq!(adapter.staged_package(&"foo".to_string()), None);
    assert_eq!(adapter.staged_package(&"bar".to_string()), Some(&StagedPackage { digest: vec![1] }));
}

#[test]
fn staged_packages_are_found_by_name() {
    let adapter = scenario();
    assert_eq!(
        adapter.staged_package(&"foo".to_string()),
        Some(&StagedPackage { digest: vec![0xaa, 0xbb, 0xcc] })
    );
    assert_eq!(adapter.staged_package(&"fo".to_string()), None);
}

#[test]
fn unpinned_reference_loads_the_latest_version() {
    let adapter = scenario();
    assert_eq!(SuiValue::resolve_object(handle(1), None, &adapter), Ok(owned(1, 5)));
}

#[test]
fn pinned_reference_loads_exactly_that_version() {
    let adapter = scenario();
    assert_eq!(
        SuiValue::resolve_object(handle(1), Some(SequenceNumber(2)), &adapter),
        Ok(owned(1, 2))
    );
    assert_eq!(
        SuiValue::resolve_object(handle(1), Some(SequenceNumber(3)), &adapter),
        Ok(owned(1, 3))
    );
}

#[test]
fn pin_miss_does_not_fall_back_to_latest() {
    let adapter = scenario();
    assert_eq!(
        SuiValue::resolve_object(handle(1), Some(SequenceNumber(4)), &adapter),
        Err(ResolveError::CouldNotLoadObject(id(1)))
    );
}

#[test]
fn unknown_handle_is_named_in_the_error() {
    let adapter = scenario();
    assert_eq!(
        SuiValue::resolve_object(FakeID::Enumerated(5, 5), None, &adapter),
        Err(ResolveError::UnknownObject(FakeID::Enumerated(5, 5)))
    );
    assert_eq!(
        SuiValue::Object(FakeID::Enumerated(5, 5), None).into_call_arg(&adapter),
        Err(ResolveError::UnknownObject(FakeID::Enumerated(5, 5)))
    );
}

#[test]
fn bound_handle_without_object_names_the_real_identity() {
    let adapter = scenario();
    assert_eq!(
        SuiValue::resolve_object(FakeID::Enumerated(9, 9), None, &adapter),
        Err(ResolveError::CouldNotLoadObject(id(8)))
    );
}

#[test]
fn silent_store_is_a_load_failure() {
    let mut adapter = SuiTestAdapter::new(SilentStore);
    assert!(adapter.bind_object(id(1), handle(1)));
    assert_eq!(
        SuiValue::resolve_object(handle(1), None, &adapter),
        Err(ResolveError::CouldNotLoadObject(id(1)))
    );
    assert_eq!(
        SuiValue::resolve_object(handle(1), Some(SequenceNumber(1)), &adapter),
        Err(ResolveError::CouldNotLoadObject(id(1)))
    );
    assert_eq!(
        SuiValue::resolve_object(handle(2), None, &adapter),
        Err(ResolveError::UnknownObject(handle(2)))
    );
}

#[test]
fn loaded_object_for_each_answer() {
    assert_eq!(SuiValue::loaded_object(id(1), Ok(Some(owned(1, 1)))), Ok(owned(1, 1)));
    assert_eq!(
        SuiValue::loaded_object(id(1), Ok(None)),
        Err(ResolveError::CouldNotLoadObject(id(1)))
    );
    assert_eq!(
        SuiValue::loaded_object(id(1), Err(StorageError { message: String::new() })),
        Err(ResolveError::CouldNotLoadObject(id(1)))
    );
}

#[test]
fn shared_object_is_a_mutable_shared_input() {
    let adapter = scenario();
    assert_eq!(
        SuiValue::object_arg(handle(2), None, &adapter),
        Ok(ObjectArg::SharedObject {
            id: id(2),
            initial_shared_version: SequenceNumber(4),
            mutable: true
        })
    );
    assert_eq!(
        SuiValue::Object(handle(2), Some(SequenceNumber(4))).into_call_arg(&adapter),
        Ok(CallArg::Object(ObjectArg::SharedObject {
            id: id(2),
            initial_shared_version: SequenceNumber(4),
            mutable: true
        }))
    );
}

#[test]
fn other_objects_are_pinned_to_their_exact_reference() {
    let adapter = scenario();
    for (k, version) in [(1u8, 5u64), (3, 1), (4, 7)] {
        let object = owned(k, version);
        assert_eq!(
            SuiValue::object_arg(handle(k as u64), None, &adapter),
            Ok(ObjectArg::ImmOrOwnedObject((object.id, object.version, object.digest)))
        );
    }
    assert_eq!(
        SuiValue::Object(handle(1), Some(SequenceNumber(2))).into_call_arg(&adapter),
        Ok(CallArg::Object(ObjectArg::ImmOrOwnedObject((
            id(1),
            SequenceNumber(2),
            owned(1, 2).digest
        ))))
    );
}

#[test]
fn receiving_does_not_branch_on_ownership() {
    let adapter = scenario();
    let shared_object = shared(2, 6, 4);
    assert_eq!(
        SuiValue::receiving_arg(handle(2), None, &adapter),
        Ok(ObjectArg::Receiving((id(2), SequenceNumber(6), shared_object.digest)))
    );
    assert_eq!(
        SuiValue::Receiving(handle(1), None).into_call_arg(&adapter),
        Ok(CallArg::Object(ObjectArg::Receiving((id(1), SequenceNumber(5), owned(1, 5).digest))))
    );
    assert_eq!(
        SuiValue::receiving_arg_of(&shared_object),
        ObjectArg::Receiving(shared_object.compute_object_reference())
    );
}

#[test]
fn receiving_of_a_missing_version_fails() {
    let adapter = scenario();
    assert_eq!(
        SuiValue::Receiving(handle(2), Some(SequenceNumber(5))).into_call_arg(&adapter),
        Err(ResolveError::CouldNotLoadObject(id(2)))
    );
}

#[test]
fn plain_value_is_its_serialized_bytes() {
    let adapter = scenario();
    assert_eq!(
        SuiValue::MoveValue(MoveValue::U64(7)).into_call_arg(&adapter),
        Ok(CallArg::Pure(vec![7, 0, 0, 0, 0, 0, 0, 0]))
    );
    assert_eq!(
        SuiValue::MoveValue(MoveValue::Bool(true)).into_call_arg(&adapter),
        Ok(CallArg::Pure(vec![1]))
    );
}

#[test]
fn pure_arg_for_each_outcome() {
    assert_eq!(SuiValue::pure_arg(Some(vec![1, 2])), Ok(CallArg::Pure(vec![1, 2])));
    assert_eq!(SuiValue::pure_arg(None), Err(ResolveError::NotSerializable));
}

#[test]
fn object_vector_is_no_single_input() {
    let adapter = scenario();
    assert_eq!(
        SuiValue::ObjVec(vec![(handle(1), None)]).into_call_arg(&adapter),
        Err(ResolveError::ObjVecNotSupported)
    );
    assert_eq!(
        SuiValue::ObjVec(vec![]).into_call_arg(&adapter),
        Err(ResolveError::ObjVecNotSupported)
    );
}

#[test]
fn digest_is_the_staged_bytes_behind_their_length() {
    let adapter = scenario();
    assert_eq!(
        SuiValue::Digest("foo".to_string()).into_call_arg(&adapter),
        Ok(CallArg::Pure(vec![3, 0xaa, 0xbb, 0xcc]))
    );
}

#[test]
fn long_digest_has_a_two_byte_length() {
    let mut adapter = scenario();
    assert!(adapter.stage_package("long".to_string(), StagedPackage { digest: vec![5u8; 200] }));
    let mut expected = vec![0xc8, 0x01];
    expected.extend(vec![5u8; 200]);
    assert_eq!(
        SuiValue::Digest("long".to_string()).into_call_arg(&adapter),
        Ok(CallArg::Pure(expected))
    );
}

#[test]
fn unstaged_name_is_unbound() {
    let mut adapter = scenario();
    assert_eq!(
        SuiValue::Digest("bar".to_string()).into_call_arg(&adapter),
        Err(ResolveError::UnboundStagedPackage("bar".to_string()))
    );
    assert!(adapter.unstage_package(&"foo".to_string()).is_some());
    assert_eq!(
        SuiValue::Digest("foo".to_string()).into_call_arg(&adapter),
        Err(ResolveError::UnboundStagedPackage("foo".to_string()))
    );
}

#[test]
fn object_vector_becomes_one_vector_argument() {
    let adapter = scenario();
    let value = SuiValue::ObjVec(vec![
        (handle(1), Some(SequenceNumber(2))),
        (handle(2), None),
        (handle(3), None),
    ]);
    assert_eq!(
        value.into_argument(&adapter),
        Ok(BuilderCall::MakeObjVec(vec![
            ObjectArg::ImmOrOwnedObject((id(1), SequenceNumber(2), owned(1, 2).digest)),
            ObjectArg::SharedObject {
                id: id(2),
                initial_shared_version: SequenceNumber(4),
                mutable: true
            },
            ObjectArg::ImmOrOwnedObject((id(3), SequenceNumber(1), owned(3, 1).digest)),
        ]))
    );
    assert_eq!(
        SuiValue::ObjVec(vec![]).into_argument(&adapter),
        Ok(BuilderCall::MakeObjVec(vec![]))
    );
}

#[test]
fn object_vector_fails_on_its_first_bad_element() {
    let adapter = scenario();
    let value = SuiValue::ObjVec(vec![
        (handle(1), None),
        (handle(1), Some(SequenceNumber(9))),
        (FakeID::Enumerated(5, 5), None),
    ]);
    assert_eq!(value.into_argument(&adapter), Err(ResolveError::CouldNotLoadObject(id(1))));
    let value = SuiValue::ObjVec(vec![(FakeID::Enumerated(5, 5), None), (handle(1), None)]);
    assert_eq!(
        value.into_argument(&adapter),
        Err(ResolveError::UnknownObject(FakeID::Enumerated(5, 5)))
    );
}

#[test]
fn other_values_become_one_input() {
    let adapter = scenario();
    assert_eq!(
        SuiValue::MoveValue(MoveValue::U8(9)).into_argument(&adapter),
        Ok(BuilderCall::Input(CallArg::Pure(vec![9])))
    );
    assert_eq!(
        SuiValue::Receiving(handle(3), None).into_argument(&adapter),
        Ok(BuilderCall::Input(CallArg::Object(ObjectArg::Receiving((
            id(3),
            SequenceNumber(1),
            owned(3, 1).digest
        )))))
    );
    assert_eq!(
        SuiValue::Digest("nothing".to_string()).into_argument(&adapter),
        Err(ResolveError::UnboundStagedPackage("nothing".to_string()))
    );
}

#[test]
fn vector_of_object_references_is_an_object_vector() {
    let elems = vec![
        SuiValue::Object(handle(1), None),
        SuiValue::Object(handle(2), Some(SequenceNumber(4))),
    ];
    assert_eq!(
        SuiExtraValueArgs::concrete_vector(elems),
        Ok(SuiValue::ObjVec(vec![(handle(1), None), (handle(2), Some(SequenceNumber(4)))]))
    );
}

#[test]
fn vector_of_plain_values_is_a_plain_vector() {
    let elems = vec![
        SuiValue::MoveValue(MoveValue::U8(1)),
        SuiValue::MoveValue(MoveValue::U8(2)),
        SuiValue::MoveValue(MoveValue::U8(3)),
    ];
    assert_eq!(
        SuiExtraValueArgs::concrete_vector(elems),
        Ok(SuiValue::MoveValue(MoveValue::Vector(vec![
            MoveValue::U8(1),
            MoveValue::U8(2),
            MoveValue::U8(3)
        ])))
    );
    assert_eq!(
        SuiExtraValueArgs::concrete_vector(vec![]),
        Ok(SuiValue::MoveValue(MoveValue::Vector(vec![])))
    );
}

#[test]
fn plain_vector_serializes_behind_its_length() {
    let adapter = scenario();
    let vector = SuiExtraValueArgs::concrete_vector(vec![
        SuiValue::MoveValue(MoveValue::U8(1)),
        SuiValue::MoveValue(MoveValue::U8(2)),
    ])
    .unwrap();
    assert_eq!(vector.into_call_arg(&adapter), Ok(CallArg::Pure(vec![2, 1, 2])));
}

#[test]
fn mixed_vector_is_rejected_before_anything_is_registered() {
    let elems = vec![SuiValue::Object(handle(1), None), SuiValue::MoveValue(MoveValue::U64(7))];
    assert_eq!(
        SuiExtraValueArgs::concrete_vector(elems),
        Err(TypeMismatch { index: 1, found: ValueKind::MoveValue, expected: ValueKind::Object })
    );
}

#[test]
fn reference_after_a_plain_first_element_is_rejected() {
    let elems = vec![
        SuiValue::MoveValue(MoveValue::U64(7)),
        SuiValue::MoveValue(MoveValue::U64(8)),
        SuiValue::Object(handle(1), None),
        SuiValue::Digest("foo".to_string()),
    ];
    assert_eq!(
        SuiExtraValueArgs::concrete_vector(elems),
        Err(TypeMismatch { index: 2, found: ValueKind::Object, expected: ValueKind::MoveValue })
    );
    assert_eq!(
        SuiExtraValueArgs::concrete_vector(vec![SuiValue::Receiving(handle(1), None)]),
        Err(TypeMismatch { index: 0, found: ValueKind::Receiving, expected: ValueKind::MoveValue })
    );
}

#[test]
fn struct_of_plain_values_is_a_plain_struct() {
    let values =
        vec![SuiValue::MoveValue(MoveValue::U8(1)), SuiValue::MoveValue(MoveValue::Bool(true))];
    assert_eq!(
        SuiExtraValueArgs::concrete_struct(values),
        Ok(SuiValue::MoveValue(MoveValue::Struct(MoveStruct::Runtime(vec![
            MoveValue::U8(1),
            MoveValue::Bool(true)
        ]))))
    );
}

#[test]
fn struct_with_a_reference_is_rejected() {
    let values = vec![SuiValue::MoveValue(MoveValue::U8(1)), SuiValue::Object(handle(1), None)];
    assert_eq!(
        SuiExtraValueArgs::concrete_struct(values),
        Err(TypeMismatch { index: 1, found: ValueKind::Object, expected: ValueKind::MoveValue })
    );
    assert_eq!(
        SuiExtraValueArgs::concrete_struct(vec![SuiValue::ObjVec(vec![])]),
        Err(TypeMismatch { index: 0, found: ValueKind::ObjVec, expected: ValueKind::MoveValue })
    );
}

#[test]
fn plain_value_is_wrapped_unchanged() {
    assert_eq!(
        SuiExtraValueArgs::move_value_into_concrete(MoveValue::U128(5)),
        Ok(SuiValue::MoveValue(MoveValue::U128(5)))
    );
}

#[test]
fn narrowing_returns_what_the_value_holds() {
    assert_eq!(SuiValue::MoveValue(MoveValue::U8(3)).assert_move_value(), MoveValue::U8(3));
    assert_eq!(
        SuiValue::Object(handle(1), Some(SequenceNumber(2))).assert_object(),
        (handle(1), Some(SequenceNumber(2)))
    );
    assert_eq!(SuiValue::Digest(String::new()).value_kind(), ValueKind::Digest);
}

#[test]
fn handles_compare_by_kind_and_content() {
    assert!(handle(1).same(&FakeID::Enumerated(0, 1)));
    assert!(!handle(1).same(&FakeID::Enumerated(1, 0)));
    assert!(!handle(1).same(&FakeID::Known(id(1))));
    assert!(FakeID::Known(id(1)).same(&FakeID::Known(id(1))));
    assert!(!FakeID::Known(id(1)).same(&FakeID::Known(id(2))));
}
