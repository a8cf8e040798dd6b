use reth_research::classifier::{
    build_critical_divergence, build_divergence, compare_executions, AccountChange,
    ExecutionOutcome,
};
use reth_research::config::{ResearchConfig, TraceDetail};
use reth_research::divergence::{CallType, DivergenceType, EventLog};
use reth_research::inspector::GasResearchInspector;
use reth_research::tracking_inspector::TrackingInspector;

fn outcome(success: bool, gas_used: u64) -> ExecutionOutcome {
    ExecutionOutcome { success, gas_used, state: vec![], logs: vec![] }
}

fn account(addr: u8, storage: &[u8], info: &[u8]) -> AccountChange {
    AccountChange { address: vec![addr; 20], storage: storage.to_vec(), info: info.to_vec() }
}

#[test]
fn identical_runs_produce_no_tags() {
    let normal = outcome(true, 1000);
    let experimental = outcome(true, 128_000);
    let (tags, analysis) = compare_executions(&normal, &experimental, 128);
    assert!(tags.is_empty());
    assert_eq!(analysis.normal_gas_used, 1000);
    assert_eq!(analysis.experimental_gas_used, 128_000);
    assert_eq!(analysis.gas_efficiency_ratio, 1_000_000);
}

#[test]
fn status_difference_is_tagged() {
    let (tags, _) = compare_executions(&outcome(true, 1000), &outcome(false, 128_000), 128);
    assert_eq!(tags, vec![DivergenceType::Status]);
}

#[test]
fn structural_gas_ratio_is_tagged() {
    let (tags, analysis) = compare_executions(&outcome(true, 1000), &outcome(true, 150_000), 128);
    assert_eq!(tags, vec![DivergenceType::GasPattern]);
    assert_eq!(analysis.gas_efficiency_ratio, 1_171_875);
}

#[test]
fn state_diff_cardinality_is_tagged() {
    let mut normal = outcome(true, 1000);
    normal.state.push(account(1, &[1], &[2]));
    let experimental = outcome(true, 128_000);
    let (tags, _) = compare_executions(&normal, &experimental, 128);
    assert_eq!(tags, vec![DivergenceType::StateRoot]);
}

#[test]
fn state_diff_account_content_is_tagged() {
    let mut normal = outcome(true, 1000);
    normal.state.push(account(1, &[1], &[2]));
    let mut experimental = outcome(true, 128_000);
    experimental.state.push(account(1, &[1], &[3]));
    let (tags, _) = compare_executions(&normal, &experimental, 128);
    assert_eq!(tags, vec![DivergenceType::StateRoot]);

    // The same accounts in another order are no divergence
    let mut normal = outcome(true, 1000);
    normal.state.push(account(1, &[1], &[2]));
    normal.state.push(account(2, &[4], &[5]));
    let mut experimental = outcome(true, 128_000);
    experimental.state.push(account(2, &[4], &[5]));
    experimental.state.push(account(1, &[1], &[2]));
    let (tags, _) = compare_executions(&normal, &experimental, 128);
    assert!(tags.is_empty());
}

#[test]
fn log_differences_are_tagged() {
    let log = |data: Vec<u8>| EventLog {
        log_index: 0,
        address: vec![9u8; 20],
        topics: vec![vec![1u8; 32]],
        data,
    };
    let mut normal = outcome(true, 1000);
    normal.logs.push(log(vec![1]));
    let mut experimental = outcome(true, 128_000);
    experimental.logs.push(log(vec![2]));
    let (tags, _) = compare_executions(&normal, &experimental, 128);
    assert_eq!(tags, vec![DivergenceType::EventLogs]);

    // A missing log is a count difference
    let mut experimental = outcome(true, 128_000);
    experimental.logs.clear();
    let (tags, _) = compare_executions(&normal, &experimental, 128);
    assert_eq!(tags, vec![DivergenceType::EventLogs]);
}

#[test]
fn all_checks_run_and_accumulate_in_order() {
    let mut normal = outcome(true, 1000);
    normal.state.push(account(1, &[1], &[2]));
    normal.logs.push(EventLog {
        log_index: 0,
        address: vec![9u8; 20],
        topics: vec![],
        data: vec![1],
    });
    let experimental = outcome(false, 150_000);
    let (tags, _) = compare_executions(&normal, &experimental, 128);
    assert_eq!(
        tags,
        vec![
            DivergenceType::Status,
            DivergenceType::GasPattern,
            DivergenceType::StateRoot,
            DivergenceType::EventLogs,
        ]
    );
}

#[test]
fn no_tags_and_no_oog_builds_no_record() {
    let tracker = TrackingInspector::new();
    let inspector = GasResearchInspector::new(ResearchConfig::default(), 30_000_000);
    let r = build_divergence(
        1,
        0,
        vec![0u8; 32],
        99,
        vec![],
        reth_research::divergence::GasAnalysis {
            normal_gas_used: 0,
            experimental_gas_used: 0,
            gas_efficiency_ratio: 1_000_000,
        },
        &tracker,
        &inspector,
        TraceDetail::Standard,
    );
    assert!(r.is_none());
}

#[test]
fn tags_build_a_record_with_the_transaction_identity() {
    let tracker = TrackingInspector::new();
    let inspector = GasResearchInspector::new(ResearchConfig::default(), 30_000_000);
    let d = build_divergence(
        7,
        3,
        vec![0xABu8; 32],
        1234,
        vec![DivergenceType::Status],
        reth_research::divergence::GasAnalysis {
            normal_gas_used: 100,
            experimental_gas_used: 0,
            gas_efficiency_ratio: 0,
        },
        &tracker,
        &inspector,
        TraceDetail::Standard,
    )
    .expect("a record");
    assert_eq!(d.block_number, 7);
    assert_eq!(d.tx_index, 3);
    assert_eq!(d.tx_hash, vec![0xABu8; 32]);
    assert_eq!(d.timestamp, 1234);
    assert_eq!(d.divergence_types, vec![DivergenceType::Status]);
    assert!(d.call_trees.is_none());
    assert!(d.event_logs.is_none());
}

#[test]
fn detailed_tracing_captures_trees_and_logs() {
    let mut tracker = TrackingInspector::new();
    tracker.call(vec![1u8; 20], vec![2u8; 20], CallType::Call, 1000);
    tracker.call_end(None, 600, true, vec![]);
    tracker.log(vec![3u8; 20], vec![vec![4u8; 32]], vec![5, 6]);
    let mut inspector = GasResearchInspector::new(ResearchConfig::default(), 30_000_000);
    inspector.log(vec![7u8; 20], vec![], vec![8]);
    let d = build_divergence(
        1,
        0,
        vec![0u8; 32],
        0,
        vec![DivergenceType::EventLogs],
        reth_research::divergence::GasAnalysis {
            normal_gas_used: 1,
            experimental_gas_used: 1,
            gas_efficiency_ratio: 1_000_000,
        },
        &tracker,
        &inspector,
        TraceDetail::Detailed,
    )
    .expect("a record");
    let trees = d.call_trees.expect("call trees");
    assert_eq!(trees.normal.len(), 1);
    assert_eq!(trees.experimental.len(), 0);
    let logs = d.event_logs.expect("event logs");
    assert_eq!(logs.normal.len(), 1);
    assert_eq!(logs.normal[0].data, vec![5, 6]);
    assert_eq!(logs.experimental.len(), 1);
    assert_eq!(logs.experimental[0].address, vec![7u8; 20]);
    assert_eq!(logs.experimental[0].data, vec![8]);
}

#[test]
fn critical_divergence_is_a_status_record_with_zeroed_gas() {
    let tracker = TrackingInspector::new();
    let inspector = GasResearchInspector::new(ResearchConfig::default(), 30_000_000);
    let d = build_critical_divergence(
        11,
        2,
        vec![0xCDu8; 32],
        777,
        21_000,
        &tracker,
        &inspector,
        TraceDetail::Standard,
    );
    assert_eq!(d.divergence_types, vec![DivergenceType::Status]);
    assert_eq!(d.gas_analysis.normal_gas_used, 21_000);
    assert_eq!(d.gas_analysis.experimental_gas_used, 0);
    assert_eq!(d.gas_analysis.gas_efficiency_ratio, 0);
    assert_eq!(d.block_number, 11);
    assert_eq!(d.tx_index, 2);
}
