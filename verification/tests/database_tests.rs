use reth_research::database::{DatabaseError, DivergenceDatabase};
use reth_research::divergence::{
    CallFrame, CallTrees, CallType, Divergence, DivergenceType, EventLog, EventLogs, GasAnalysis,
    OperationCounts,
};

fn plain_divergence() -> Divergence {
    Divergence {
        block_number: 100,
        tx_index: 5,
        tx_hash: vec![0u8; 32],
        timestamp: 1234567890,
        divergence_types: vec![DivergenceType::StateRoot],
        gas_analysis: GasAnalysis {
            normal_gas_used: 21000,
            experimental_gas_used: 2688000,
            gas_efficiency_ratio: 1_000_000,
        },
        normal_ops: OperationCounts::default(),
        experimental_ops: OperationCounts::default(),
        divergence_location: None,
        oog_info: None,
        call_trees: None,
        event_logs: None,
    }
}

#[test]
fn test_database_creation() {
    let db = DivergenceDatabase::in_memory().unwrap();
    assert!(db.count_divergences(0, 1000).unwrap() == 0);
}

#[test]
fn test_record_divergence() {
    let db = DivergenceDatabase::in_memory().unwrap();

    let divergence = plain_divergence();

    let id = db.record_divergence(&divergence).unwrap();
    assert!(id > 0);

    assert_eq!(db.count_divergences(0, 1000).unwrap(), 1);
    assert_eq!(db.count_by_type(DivergenceType::StateRoot).unwrap(), 1);
}

#[test]
fn absent_tag_keeps_its_prior_count() {
    let db = DivergenceDatabase::in_memory().unwrap();
    let before = db.count_by_type(DivergenceType::GasPattern).unwrap();
    db.record_divergence(&plain_divergence()).unwrap();
    assert_eq!(db.count_by_type(DivergenceType::GasPattern).unwrap(), before);
    assert_eq!(db.count_by_type(DivergenceType::StateRoot).unwrap(), 1);
}

#[test]
fn count_is_bounded_by_block_range() {
    let db = DivergenceDatabase::in_memory().unwrap();
    db.record_divergence(&plain_divergence()).unwrap(); // block 100
    assert_eq!(db.count_divergences(0, 99).unwrap(), 0);
    assert_eq!(db.count_divergences(100, 100).unwrap(), 1);
    assert_eq!(db.count_divergences(101, 1000).unwrap(), 0);
}

#[test]
fn record_with_traces_persists() {
    let db = DivergenceDatabase::in_memory().unwrap();
    let mut divergence = plain_divergence();
    divergence.call_trees = Some(CallTrees {
        normal: vec![CallFrame {
            call_index: 0,
            depth: 0,
            from: vec![0x01u8; 20],
            to: Some(vec![0x02u8; 20]),
            call_type: CallType::Call,
            gas_provided: 1000,
            gas_used: 400,
            success: true,
            input: Some(vec![1, 2]),
            output: None,
        }],
        experimental: vec![],
    });
    divergence.event_logs = Some(EventLogs {
        normal: vec![EventLog {
            log_index: 0,
            address: vec![0x03u8; 20],
            topics: vec![vec![0x04u8; 32], vec![0x05u8; 32]],
            data: vec![7, 8, 9],
        }],
        experimental: vec![],
    });
    let id = db.record_divergence(&divergence).unwrap();
    assert!(id > 0);
    assert_eq!(db.count_divergences(100, 100).unwrap(), 1);
}

#[test]
fn record_out_of_column_range_is_refused() {
    let db = DivergenceDatabase::in_memory().unwrap();
    let mut divergence = plain_divergence();
    divergence.block_number = u64::MAX;
    let err = db.record_divergence(&divergence).unwrap_err();
    assert!(matches!(err, DatabaseError::Serialization(_)));
    // Nothing was stored
    assert_eq!(db.count_divergences(0, u64::MAX / 2).unwrap(), 0);
}

#[test]
fn count_range_out_of_column_range_is_refused() {
    let db = DivergenceDatabase::in_memory().unwrap();
    assert!(db.count_divergences(0, u64::MAX).is_err());
}

#[test]
fn unfit_call_frame_is_refused_as_serialization() {
    let db = DivergenceDatabase::in_memory().unwrap();
    let mut divergence = plain_divergence();
    divergence.call_trees = Some(CallTrees {
        normal: vec![CallFrame {
            call_index: 0,
            depth: 0,
            from: vec![0x01u8; 20],
            to: None,
            call_type: CallType::Call,
            gas_provided: u64::MAX, // does not fit a signed integer column
            gas_used: 0,
            success: false,
            input: None,
            output: None,
        }],
        experimental: vec![],
    });
    let err = db.record_divergence(&divergence).unwrap_err();
    assert!(matches!(err, DatabaseError::Serialization(_)));
}

#[test]
fn error_messages_carry_their_prefix() {
    let e = DatabaseError::Serialization(String::from("x"));
    assert_eq!(e.message(), "Serialization error: x");
    assert_eq!(DatabaseError::NotInitialized.message(), "Database not initialized");
}
