use reth_research::classifier::ExecutionOutcome;
use reth_research::config::ResearchConfig;
use reth_research::divergence::DivergenceType;
use reth_research::executor::{
    plan_chain_event, ChainAction, ChainEvent, ResearchError, ResearchExecutor, TxRecord,
};
use reth_research::inspector::GasResearchInspector;
use reth_research::tracking_inspector::TrackingInspector;

fn executor(config: ResearchConfig) -> ResearchExecutor {
    ResearchExecutor::new(config, None).expect("valid configuration")
}

fn oog_inspector() -> GasResearchInspector {
    // Ceiling 2_700_000 * 1 - 21000 * 127 = 33_000; one SSTORE bursts it
    let config = ResearchConfig {
        gas_multiplier: 128,
        gas_limit_multiplier: Some(1),
        ..Default::default()
    };
    let mut inspector = GasResearchInspector::new(config, 2_700_000);
    inspector.step(7, 0x55, 50_000, 0);
    assert!(inspector.oog_occurred());
    inspector
}

#[test]
fn invalid_configuration_is_refused_at_construction() {
    let config = ResearchConfig { gas_multiplier: 0, ..Default::default() };
    let err = ResearchExecutor::new(config, None).unwrap_err();
    assert!(matches!(err, ResearchError::Config(_)));
}

#[test]
fn fresh_executor_has_zero_stats() {
    let ex = executor(ResearchConfig::default());
    let stats = ex.stats();
    assert_eq!(stats.blocks_processed, 0);
    assert_eq!(stats.divergences_found, 0);
}

#[test]
fn research_mode_starts_at_the_configured_block() {
    let config = ResearchConfig { start_block: 500, ..Default::default() };
    let ex = executor(config);
    assert!(!ex.is_enabled_for_block(499));
    assert!(ex.is_enabled_for_block(500));
    assert!(ex.is_enabled_for_block(501));
}

#[test]
fn simulated_oog_produces_a_record_per_transaction() {
    let mut ex = executor(ResearchConfig { gas_multiplier: 128, ..Default::default() });
    let inspector = oog_inspector();
    let txs = vec![
        TxRecord { hash: vec![1u8; 32], success: true, cumulative_gas_used: 21_000 },
        TxRecord { hash: vec![2u8; 32], success: false, cumulative_gas_used: 42_000 },
    ];
    let records = ex.analyze_execution(900, 5555, &txs, &inspector);
    assert_eq!(records.len(), 2);

    // Normal succeeded, simulation ran out of gas: status and trace diverge
    assert!(records[0].divergence_types.contains(&DivergenceType::Status));
    assert!(records[0].divergence_types.contains(&DivergenceType::ExecutionTrace));
    assert_eq!(records[0].tx_index, 0);
    assert_eq!(records[0].tx_hash, vec![1u8; 32]);
    assert_eq!(records[0].block_number, 900);
    assert_eq!(records[0].timestamp, 5555);

    // Normal failed too: no execution-trace tag
    assert!(records[1].divergence_types.contains(&DivergenceType::Status));
    assert!(!records[1].divergence_types.contains(&DivergenceType::ExecutionTrace));

    assert_eq!(ex.stats().divergences_found, 2);
    assert_eq!(ex.metrics.divergences_total, 2);
    assert_eq!(ex.metrics.divergences_status, 2);
    assert_eq!(ex.metrics.divergences_execution_trace, 1);
    // The simulated out-of-gas was metered once per record, by its pattern
    assert_eq!(ex.metrics.oog_total, 2);
    assert_eq!(ex.metrics.oog_storage_heavy, 2);
    assert_eq!(ex.metrics.oog_loop, 0);
    // One ratio observation per record, in transaction order
    assert_eq!(
        ex.metrics.gas_efficiency_ratio_observations,
        vec![
            records[0].gas_analysis.gas_efficiency_ratio,
            records[1].gas_analysis.gas_efficiency_ratio,
        ]
    );
}

#[test]
fn per_block_cap_stops_the_scan() {
    let config = ResearchConfig {
        gas_multiplier: 128,
        max_divergences_per_block: Some(1),
        ..Default::default()
    };
    let mut ex = executor(config);
    let inspector = oog_inspector();
    let txs = vec![
        TxRecord { hash: vec![1u8; 32], success: true, cumulative_gas_used: 21_000 },
        TxRecord { hash: vec![2u8; 32], success: true, cumulative_gas_used: 42_000 },
        TxRecord { hash: vec![3u8; 32], success: true, cumulative_gas_used: 63_000 },
    ];
    let records = ex.analyze_execution(900, 5555, &txs, &inspector);
    assert_eq!(records.len(), 1);
    assert_eq!(ex.stats().divergences_found, 1);
    assert!(ex.reached_divergence_cap(records.len()));
    assert!(!ex.reached_divergence_cap(0));
}

#[test]
fn quiet_simulation_produces_no_records() {
    let mut ex = executor(ResearchConfig { gas_multiplier: 128, ..Default::default() });
    // A single cheap step: no out-of-gas, no loop pattern
    let mut inspector =
        GasResearchInspector::new(ResearchConfig { gas_multiplier: 128, ..Default::default() },
            30_000_000);
    inspector.step(0, 0x01, 1_000_000, 0);
    // Cumulative gas chosen so the ratio is exactly one: 384 / 128 = 3
    let txs = vec![TxRecord { hash: vec![1u8; 32], success: true, cumulative_gas_used: 3 }];
    let records = ex.analyze_execution(900, 5555, &txs, &inspector);
    assert!(records.is_empty());
    assert_eq!(ex.stats().divergences_found, 0);
}

#[test]
fn transaction_with_failed_experimental_run_is_critical() {
    let mut ex = executor(ResearchConfig::default());
    let tracker = TrackingInspector::new();
    let inspector = GasResearchInspector::new(ResearchConfig::default(), 30_000_000);
    let normal = ExecutionOutcome { success: true, gas_used: 21_000, state: vec![], logs: vec![] };
    let d = ex
        .analyze_transaction(50, 1, vec![7u8; 32], 999, &normal, None, &tracker, &inspector)
        .expect("a critical record");
    assert_eq!(d.divergence_types, vec![DivergenceType::Status]);
    assert_eq!(d.gas_analysis.normal_gas_used, 21_000);
    assert_eq!(d.gas_analysis.experimental_gas_used, 0);
    assert_eq!(ex.stats().divergences_found, 1);
}

#[test]
fn transaction_with_equal_runs_is_no_divergence() {
    let mut ex = executor(ResearchConfig::default());
    let tracker = TrackingInspector::new();
    let inspector = GasResearchInspector::new(ResearchConfig::default(), 30_000_000);
    let normal = ExecutionOutcome { success: true, gas_used: 1000, state: vec![], logs: vec![] };
    let experimental =
        ExecutionOutcome { success: true, gas_used: 128_000, state: vec![], logs: vec![] };
    let r = ex.analyze_transaction(
        50,
        1,
        vec![7u8; 32],
        999,
        &normal,
        Some(&experimental),
        &tracker,
        &inspector,
    );
    assert!(r.is_none());
    assert_eq!(ex.stats().divergences_found, 0);
}

#[test]
fn transaction_with_status_difference_is_recorded() {
    let mut ex = executor(ResearchConfig::default());
    let tracker = TrackingInspector::new();
    let inspector = GasResearchInspector::new(ResearchConfig::default(), 30_000_000);
    let normal = ExecutionOutcome { success: true, gas_used: 1000, state: vec![], logs: vec![] };
    let experimental =
        ExecutionOutcome { success: false, gas_used: 128_000, state: vec![], logs: vec![] };
    let d = ex
        .analyze_transaction(
            50,
            1,
            vec![7u8; 32],
            999,
            &normal,
            Some(&experimental),
            &tracker,
            &inspector,
        )
        .expect("a record");
    assert_eq!(d.divergence_types, vec![DivergenceType::Status]);
    assert_eq!(ex.metrics.divergences_status, 1);
}

#[test]
fn block_bookkeeping_raises_stats_and_metrics() {
    let mut ex = executor(ResearchConfig::default());
    ex.record_block_processed(42, 3, 17);
    assert_eq!(ex.stats().blocks_processed, 1);
    assert_eq!(ex.metrics.blocks_processed_total, 1);
    assert_eq!(ex.metrics.transactions_processed_total, 3);
    assert_eq!(ex.metrics.block_execution_millis, vec![17]);
}

#[test]
fn error_messages_name_their_cause() {
    let e = ResearchError::Execution(String::from("engine refused"));
    assert_eq!(e.message(), "Execution error: engine refused");
    assert_eq!(
        ResearchError::NotEnabled(5).message(),
        "Research mode not enabled for this block"
    );
}

#[test]
fn committed_and_reorged_chains_are_analyzed() {
    assert_eq!(plan_chain_event(ChainEvent::Committed), ChainAction::AnalyzeNewBlocks);
    assert_eq!(plan_chain_event(ChainEvent::Reorged), ChainAction::AnalyzeNewBlocks);
    assert_eq!(plan_chain_event(ChainEvent::Reverted), ChainAction::AcknowledgeOnly);
}
