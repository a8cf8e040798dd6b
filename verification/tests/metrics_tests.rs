use reth_research::divergence::{DivergenceType, OogPattern};
use reth_research::metrics::{
    record_block_processed, record_divergence, record_divergence_detection_time, record_oog,
    register_metrics, MetricsRegistry,
};

#[test]
fn registration_is_idempotent() {
    let mut registry = MetricsRegistry::new();
    assert!(!registry.registered);
    register_metrics(&mut registry);
    assert!(registry.registered);
    registry.blocks_processed_total = 5;
    register_metrics(&mut registry);
    assert!(registry.registered);
    assert_eq!(registry.blocks_processed_total, 5);
}

#[test]
fn block_processing_counts_blocks_and_transactions() {
    let mut registry = MetricsRegistry::new();
    record_block_processed(&mut registry, 10, 4, 120);
    record_block_processed(&mut registry, 11, 0, 30);
    assert_eq!(registry.blocks_processed_total, 2);
    assert_eq!(registry.transactions_processed_total, 4);
    assert_eq!(registry.block_execution_millis, vec![120, 30]);
}

#[test]
fn divergences_count_by_each_tag() {
    let mut registry = MetricsRegistry::new();
    record_divergence(
        &mut registry,
        &vec![DivergenceType::Status, DivergenceType::GasPattern, DivergenceType::GasPattern],
        781_250,
    );
    assert_eq!(registry.divergences_total, 1);
    assert_eq!(registry.divergences_status, 1);
    assert_eq!(registry.divergences_gas_pattern, 2);
    assert_eq!(registry.divergences_state_root, 0);
    assert_eq!(registry.gas_efficiency_ratio_observations, vec![781_250]);
}

#[test]
fn oog_events_count_by_pattern() {
    let mut registry = MetricsRegistry::new();
    record_oog(&mut registry, OogPattern::Loop);
    record_oog(&mut registry, OogPattern::Loop);
    record_oog(&mut registry, OogPattern::Unknown);
    assert_eq!(registry.oog_total, 3);
    assert_eq!(registry.oog_loop, 2);
    assert_eq!(registry.oog_unknown, 1);
    assert_eq!(registry.oog_call_chain, 0);
}

#[test]
fn detection_times_are_observed_in_order() {
    let mut registry = MetricsRegistry::new();
    record_divergence_detection_time(&mut registry, 3);
    record_divergence_detection_time(&mut registry, 8);
    assert_eq!(registry.divergence_detection_millis, vec![3, 8]);
}
