use reth_research::config::ResearchConfig;
use reth_research::divergence::{CallType, OogPattern};
use reth_research::inspector::{estimate_opcode_gas_cost, opcode_hex_name, GasResearchInspector};

#[test]
fn test_gas_calculation() {
    let config = ResearchConfig { gas_multiplier: 128, ..Default::default() };

    let inspector = GasResearchInspector::new(config, 100_000);

    // Base cost of 100 should become 12,800
    assert_eq!(inspector.calculate_gas_cost(100), 12_800);
}

#[test]
fn test_opcode_gas_estimation() {
    assert_eq!(estimate_opcode_gas_cost(0x01), 3); // ADD
    assert_eq!(estimate_opcode_gas_cost(0x54), 800); // SLOAD
    assert_eq!(estimate_opcode_gas_cost(0x55), 2900); // SSTORE
    assert_eq!(estimate_opcode_gas_cost(0xF1), 700); // CALL
}

#[test]
fn test_operation_counts_tracking() {
    let config = ResearchConfig::default();
    let inspector = GasResearchInspector::new(config, 100_000);

    assert_eq!(inspector.operation_counts().total_ops, 0);
    assert_eq!(inspector.operation_counts().sload_count, 0);
}

#[test]
fn test_inspector_compiles_and_has_correct_api() {
    // Just verify that we can create an inspector
    let config = ResearchConfig::default();
    let gas_limit = 30_000_000;

    let _inspector = GasResearchInspector::new(config, gas_limit);
}

#[test]
fn test_inspector_tracks_operations() {
    let config = ResearchConfig::default();
    let gas_limit = 30_000_000;

    let inspector = GasResearchInspector::new(config, gas_limit);

    // Verify we can access operation counts
    let counts = inspector.operation_counts();
    assert_eq!(counts.sload_count, 0);
    assert_eq!(counts.sstore_count, 0);
    assert_eq!(counts.call_count, 0);
    assert_eq!(counts.total_ops, 0);
}

#[test]
fn test_inspector_gas_simulation() {
    let mut config = ResearchConfig::default();
    config.gas_multiplier = 128;
    let gas_limit = 30_000_000;

    let inspector = GasResearchInspector::new(config, gas_limit);

    // Verify the inspector is created with the correct multiplier
    assert!(!inspector.oog_occurred());
}

#[test]
fn step_counts_each_opcode_class() {
    let mut inspector = GasResearchInspector::new(ResearchConfig::default(), 30_000_000);
    inspector.step(0, 0x54, 1_000_000, 0); // SLOAD
    inspector.step(1, 0x55, 1_000_000, 0); // SSTORE
    inspector.step(2, 0xF1, 1_000_000, 0); // CALL
    inspector.step(3, 0xA0, 1_000_000, 0); // LOG0
    inspector.step(4, 0xF0, 1_000_000, 0); // CREATE
    inspector.step(5, 0x01, 1_000_000, 96); // ADD, 3 memory words
    let counts = inspector.operation_counts();
    assert_eq!(counts.total_ops, 6);
    assert_eq!(counts.sload_count, 1);
    assert_eq!(counts.sstore_count, 1);
    assert_eq!(counts.call_count, 1);
    assert_eq!(counts.log_count, 1);
    assert_eq!(counts.create_count, 1);
    assert_eq!(counts.memory_words_allocated, 3);
}

#[test]
fn simulated_gas_accumulates_with_multiplier() {
    let config = ResearchConfig { gas_multiplier: 128, ..Default::default() };
    let mut inspector = GasResearchInspector::new(config, 30_000_000);
    inspector.step(0, 0x01, 1_000_000, 0); // ADD: 3 * 128
    inspector.step(1, 0x54, 1_000_000, 0); // SLOAD: 800 * 128
    assert_eq!(inspector.simulated_gas_used(), (3 + 800) * 128);
}

#[test]
fn gas_loop_pattern_needs_three_hits_at_one_counter() {
    let mut inspector = GasResearchInspector::new(ResearchConfig::default(), 30_000_000);
    // Fewer than 3 recorded events never flags
    inspector.step(42, 0x5A, 900_000, 0);
    inspector.step(42, 0x5A, 800_000, 0);
    assert!(!inspector.has_gas_loop_pattern());
    // A third hit at the same program counter flags
    inspector.step(42, 0x5A, 700_000, 0);
    assert!(inspector.has_gas_loop_pattern());
}

#[test]
fn gas_loop_pattern_needs_a_single_repeating_counter() {
    let mut inspector = GasResearchInspector::new(ResearchConfig::default(), 30_000_000);
    inspector.step(1, 0x5A, 900_000, 0);
    inspector.step(2, 0x5A, 800_000, 0);
    inspector.step(3, 0x5A, 700_000, 0);
    inspector.step(4, 0x5A, 600_000, 0);
    assert!(!inspector.has_gas_loop_pattern());
}

#[test]
fn loop_detection_can_be_disabled() {
    let config = ResearchConfig { detect_gas_loops: false, ..Default::default() };
    let mut inspector = GasResearchInspector::new(config, 30_000_000);
    inspector.step(42, 0x5A, 900_000, 0);
    inspector.step(42, 0x5A, 800_000, 0);
    inspector.step(42, 0x5A, 700_000, 0);
    assert!(!inspector.has_gas_loop_pattern());
}

#[test]
fn simulated_oog_is_recorded_once_with_pattern() {
    // Ceiling: 2_700_000 * 1 - 21000 * 127 = 33_000
    let config = ResearchConfig {
        gas_multiplier: 128,
        gas_limit_multiplier: Some(1),
        ..Default::default()
    };
    let mut inspector = GasResearchInspector::new(config, 2_700_000);
    assert!(!inspector.oog_occurred());

    // One SSTORE costs 2900 * 128 = 371_200 simulated gas: over the ceiling
    inspector.step(7, 0x55, 50_000, 0);
    assert!(inspector.oog_occurred());

    let info = inspector.oog_info().as_ref().expect("out-of-gas info");
    assert_eq!(info.opcode, 0x55);
    assert_eq!(info.opcode_name, "0x55");
    assert_eq!(info.pc, 7);
    assert_eq!(info.call_depth, 0);
    assert_eq!(info.gas_remaining, 50_000);
    assert_eq!(info.pattern, OogPattern::StorageHeavy);

    let loc = inspector.divergence_location().as_ref().expect("divergence location");
    assert_eq!(loc.pc, 7);
    assert_eq!(loc.opcode, 0x55);
    assert_eq!(loc.opcode_name, "0x55");
    assert!(loc.function_selector.is_none());

    // First-write-wins: a later, different over-the-ceiling step changes nothing
    inspector.step(9, 0xF1, 40_000, 0);
    let info = inspector.oog_info().as_ref().unwrap();
    assert_eq!(info.pc, 7);
    assert_eq!(info.pattern, OogPattern::StorageHeavy);
}

#[test]
fn oog_pattern_follows_opcode_class_precedence() {
    let config = ResearchConfig {
        gas_multiplier: 128,
        gas_limit_multiplier: Some(1),
        ..Default::default()
    };
    // CALL-class opcode at the moment of OOG: call chain
    let mut inspector = GasResearchInspector::new(config.clone(), 2_700_000);
    inspector.step(3, 0xF1, 20_000, 0); // 700 * 128 = 89_600 > 33_000
    assert_eq!(inspector.oog_info().as_ref().unwrap().pattern, OogPattern::CallChain);

    // MSTORE at the moment of OOG: memory expansion; needs earlier cheap
    // steps to approach the ceiling since MSTORE itself is cheap here
    let mut inspector = GasResearchInspector::new(config, 2_700_000);
    for pc in 0..85usize {
        inspector.step(pc, 0x01, 100_000, 0); // 85 * 3 * 128 = 32_640
    }
    assert!(!inspector.oog_occurred());
    inspector.step(85, 0x52, 100_000, 0); // + 384 crosses 33_000
    assert!(inspector.oog_occurred());
    assert_eq!(inspector.oog_info().as_ref().unwrap().pattern, OogPattern::MemoryExpansion);
}

#[test]
fn call_frames_record_closed_calls() {
    let mut inspector = GasResearchInspector::new(ResearchConfig::default(), 30_000_000);
    let caller = vec![0x11u8; 20];
    let callee = vec![0x22u8; 20];
    inspector.call(callee.clone(), CallType::Call);
    inspector.step(0, 0x01, 1_000_000, 0);
    inspector.call_end(caller.clone(), callee.clone(), 5_000, Some(vec![1, 2, 3]), true, vec![9]);

    let frames = inspector.call_frames();
    assert_eq!(frames.len(), 1);
    assert_eq!(frames[0].call_index, 0);
    assert_eq!(frames[0].depth, 0);
    assert_eq!(frames[0].from, caller);
    assert_eq!(frames[0].to.as_ref().unwrap(), &callee);
    assert_eq!(frames[0].call_type, CallType::Call);
    assert_eq!(frames[0].gas_provided, 5_000);
    assert!(frames[0].success);
    assert_eq!(frames[0].input.as_ref().unwrap(), &vec![1, 2, 3]);
    assert_eq!(frames[0].output.as_ref().unwrap(), &vec![9]);
}

#[test]
fn create_without_address_resolves_to_zero() {
    let mut inspector = GasResearchInspector::new(ResearchConfig::default(), 30_000_000);
    inspector.create(CallType::Create);
    inspector.create_end(vec![0x11u8; 20], None, 60_000, vec![0xFE], false, vec![]);
    let frames = inspector.call_frames();
    assert_eq!(frames.len(), 1);
    assert_eq!(frames[0].to.as_ref().unwrap(), &vec![0u8; 20]);
    assert_eq!(frames[0].call_type, CallType::Create);
    assert!(!frames[0].success);
    assert_eq!(frames[0].input.as_ref().unwrap(), &vec![0xFE]);
}

#[test]
fn opcode_names_are_two_hex_digits() {
    assert_eq!(opcode_hex_name(0x00), "0x00");
    assert_eq!(opcode_hex_name(0x5A), "0x5a");
    assert_eq!(opcode_hex_name(0xFF), "0xff");
    assert_eq!(opcode_hex_name(0x07), "0x07");
}

#[test]
fn loop_window_is_bounded_and_evicts_the_oldest() {
    let mut inspector = GasResearchInspector::new(ResearchConfig::default(), 30_000_000);
    for pc in 0..1003usize {
        inspector.step(pc, 0x5A, 1_000_000, 0);
    }
    assert_eq!(inspector.gas_opcode_usage.len(), 1000);
    // The oldest events were evicted: the front of the window moved on
    assert_eq!(inspector.gas_opcode_usage[0].pc, 3);
    assert_eq!(inspector.gas_opcode_usage[999].pc, 1002);
}

#[test]
fn simulator_captures_emitted_logs_in_order() {
    let mut inspector = GasResearchInspector::new(ResearchConfig::default(), 30_000_000);
    let addr = vec![0x44u8; 20];
    inspector.log(addr.clone(), vec![vec![0x01u8; 32]], vec![1, 2]);
    inspector.log(addr.clone(), vec![], vec![3]);
    let logs = inspector.event_logs();
    assert_eq!(logs.len(), 2);
    assert_eq!(logs[0].log_index, 0);
    assert_eq!(logs[0].address, addr);
    assert_eq!(logs[0].topics.len(), 1);
    assert_eq!(logs[0].data, vec![1, 2]);
    assert_eq!(logs[1].log_index, 1);
    assert_eq!(logs[1].data, vec![3]);
}
