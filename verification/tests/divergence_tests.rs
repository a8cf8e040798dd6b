use reth_research::divergence::{
    divergence_types_string, DivergenceType, GasAnalysis, OperationCounts,
};

#[test]
fn test_gas_efficiency_ratio() {
    // Same execution path: experimental gas is exactly multiplier * normal gas
    let ratio_ppm = GasAnalysis::calculate_ratio(1000, 128_000, 128);
    let ratio = ratio_ppm as f64 / 1_000_000.0;
    assert!((ratio - 1.0).abs() < 0.01);
    assert!(!GasAnalysis {
        normal_gas_used: 1000,
        experimental_gas_used: 128_000,
        gas_efficiency_ratio: ratio_ppm,
    }
    .is_structural_divergence());

    // Different execution path: experimental uses less gas (shorter path)
    let ratio_ppm = GasAnalysis::calculate_ratio(1000, 100_000, 128);
    let ratio = ratio_ppm as f64 / 1_000_000.0;
    assert!(ratio < 0.9);
    assert!(GasAnalysis {
        normal_gas_used: 1000,
        experimental_gas_used: 100_000,
        gas_efficiency_ratio: ratio_ppm,
    }
    .is_structural_divergence());

    // Different execution path: experimental uses more gas (longer path)
    let ratio_ppm = GasAnalysis::calculate_ratio(1000, 150_000, 128);
    let ratio = ratio_ppm as f64 / 1_000_000.0;
    assert!(ratio > 1.1);
    assert!(GasAnalysis {
        normal_gas_used: 1000,
        experimental_gas_used: 150_000,
        gas_efficiency_ratio: ratio_ppm,
    }
    .is_structural_divergence());
}

#[test]
fn test_divergence_type_display() {
    assert_eq!(DivergenceType::StateRoot.as_str(), "state_root");
    assert_eq!(DivergenceType::CallTree.as_str(), "call_tree");
}

#[test]
fn test_operation_counts_default() {
    let ops = OperationCounts::default();
    assert_eq!(ops.total_ops, 0);
    assert_eq!(ops.sload_count, 0);
}

#[test]
fn exact_multiple_gives_ratio_of_exactly_one() {
    assert_eq!(GasAnalysis::calculate_ratio(1000, 128_000, 128), 1_000_000);
    assert_eq!(GasAnalysis::calculate_ratio(7, 21, 3), 1_000_000);
}

#[test]
fn shorter_path_ratio_is_flagged_structural() {
    // normal=1000, exp=100000, multiplier=128 -> about 0.78
    let ppm = GasAnalysis::calculate_ratio(1000, 100_000, 128);
    assert_eq!(ppm, 781_250);
}

#[test]
fn longer_path_ratio_is_flagged_structural() {
    // normal=1000, exp=150000, multiplier=128 -> about 1.17
    let ppm = GasAnalysis::calculate_ratio(1000, 150_000, 128);
    assert_eq!(ppm, 1_171_875);
}

#[test]
fn zero_normal_gas_gives_ratio_of_one() {
    // degenerate-denominator rule, regardless of experimental gas
    assert_eq!(GasAnalysis::calculate_ratio(0, 0, 128), 1_000_000);
    assert_eq!(GasAnalysis::calculate_ratio(0, u64::MAX, 1), 1_000_000);
    assert_eq!(GasAnalysis::calculate_ratio(0, 5_000_000, 7), 1_000_000);
}

#[test]
fn five_percent_tolerance_is_strict() {
    let at_upper_bound = GasAnalysis {
        normal_gas_used: 0,
        experimental_gas_used: 0,
        gas_efficiency_ratio: 1_050_000,
    };
    assert!(!at_upper_bound.is_structural_divergence());
    let above = GasAnalysis { gas_efficiency_ratio: 1_050_001, ..at_upper_bound.clone() };
    assert!(above.is_structural_divergence());
    let at_lower_bound = GasAnalysis { gas_efficiency_ratio: 950_000, ..at_upper_bound.clone() };
    assert!(!at_lower_bound.is_structural_divergence());
    let below = GasAnalysis { gas_efficiency_ratio: 949_999, ..at_upper_bound };
    assert!(below.is_structural_divergence());
}

#[test]
fn type_names_join_with_commas() {
    let s = divergence_types_string(&vec![
        DivergenceType::Status,
        DivergenceType::GasPattern,
        DivergenceType::StateRoot,
    ]);
    assert_eq!(s, "status,gas_pattern,state_root");
    let empty = divergence_types_string(&vec![]);
    assert_eq!(empty, "");
    let single = divergence_types_string(&vec![DivergenceType::EventLogs]);
    assert_eq!(single, "event_logs");
}
