use sui_transactional_test_runner::base_types::TransactionDigest;
use sui_transactional_test_runner::transactional_adapter::{
    ascending_event_query, execution_path, indexed_events, stored_events, Backend, Capability,
    EventQuery, ExecutionPath, NotSupported,
};

const ALL: [Capability; 7] = [
    Capability::ExecuteTxn,
    Capability::CreateCheckpoint,
    Capability::AdvanceClock,
    Capability::AdvanceEpoch,
    Capability::RequestGas,
    Capability::DevInspect,
    Capability::QueryTxEventsAsc,
];

#[test]
fn validator_refuses_what_it_has_no_control_over() {
    for capability in [
        Capability::CreateCheckpoint,
        Capability::AdvanceClock,
        Capability::AdvanceEpoch,
        Capability::RequestGas,
    ] {
        assert_eq!(
            Backend::ValidatorWithFullnode.require(capability),
            Err(NotSupported { backend: Backend::ValidatorWithFullnode, capability })
        );
    }
}

#[test]
fn validator_executes_inspects_and_answers_queries() {
    for capability in
        [Capability::ExecuteTxn, Capability::DevInspect, Capability::QueryTxEventsAsc]
    {
        assert_eq!(Backend::ValidatorWithFullnode.require(capability), Ok(()));
    }
}

#[test]
fn simulator_refuses_nothing() {
    for capability in ALL {
        assert_eq!(Backend::Simulator.require(capability), Ok(()));
    }
}

#[test]
fn shared_objects_go_through_consensus() {
    assert_eq!(execution_path(true), ExecutionPath::Consensus);
    assert_eq!(execution_path(false), ExecutionPath::FastPath);
}

#[test]
fn event_query_is_ascending_from_the_start() {
    let digest = TransactionDigest([3u8; 32]);
    assert_eq!(
        ascending_event_query(&digest, 10),
        EventQuery { tx_digest: digest, limit: 10, descending: false }
    );
}

#[test]
fn failed_index_reaches_the_caller() {
    assert_eq!(indexed_events::<u32, String>(Ok(vec![1, 2, 3])), Ok(vec![1, 2, 3]));
    assert_eq!(indexed_events::<u32, String>(Ok(vec![])), Ok(vec![]));
    assert_eq!(indexed_events::<u32, String>(Err("down".to_string())), Err("down".to_string()));
}

#[test]
fn unknown_transaction_has_no_events() {
    assert_eq!(stored_events::<u32>(None, 5), Vec::<u32>::new());
}

#[test]
fn stored_events_come_oldest_first_up_to_the_limit() {
    assert_eq!(stored_events(Some(vec![1, 2, 3]), 5), vec![1, 2, 3]);
    assert_eq!(stored_events(Some(vec![1, 2, 3]), 3), vec![1, 2, 3]);
    assert_eq!(stored_events(Some(vec![1, 2, 3]), 2), vec![1, 2]);
    assert_eq!(stored_events(Some(vec![1, 2, 3]), 0), Vec::<i32>::new());
}
