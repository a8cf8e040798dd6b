use reth_research::divergence::CallType;
use reth_research::tracking_inspector::TrackingInspector;

#[test]
fn closed_frames_never_exceed_enters() {
    let mut tracker = TrackingInspector::new();
    let a = vec![0xAAu8; 20];
    let b = vec![0xBBu8; 20];

    // Three enters, two exits: two closed frames at most
    tracker.call(a.clone(), b.clone(), CallType::Call, 1_000);
    tracker.call(b.clone(), a.clone(), CallType::StaticCall, 500);
    tracker.call(a.clone(), b.clone(), CallType::DelegateCall, 250);
    tracker.call_end(None, 100, true, vec![]);
    tracker.call_end(None, 50, false, vec![]);

    assert_eq!(tracker.call_frames().len(), 2);
}

#[test]
fn unmatched_exit_is_ignored() {
    let mut tracker = TrackingInspector::new();
    tracker.call_end(None, 0, true, vec![]);
    tracker.create_end(None, vec![], 0, true, vec![]);
    assert_eq!(tracker.call_frames().len(), 0);
    assert_eq!(tracker.operation_counts().total_ops, 0);
}

#[test]
fn open_frame_without_exit_leaves_no_frame() {
    let mut tracker = TrackingInspector::new();
    tracker.call(vec![0x01u8; 20], vec![0x02u8; 20], CallType::Call, 9_000);
    // The host engine errored mid-call: the frame never receives an exit
    assert_eq!(tracker.call_frames().len(), 0);
}

#[test]
fn closed_frame_keeps_entry_data_and_gas_delta() {
    let mut tracker = TrackingInspector::new();
    let caller = vec![0x01u8; 20];
    let target = vec![0x02u8; 20];
    tracker.call(caller.clone(), target.clone(), CallType::CallCode, 10_000);
    tracker.call_end(Some(vec![0xAB]), 4_000, true, vec![0xCD, 0xEF]);

    let frames = tracker.call_frames();
    assert_eq!(frames.len(), 1);
    assert_eq!(frames[0].call_index, 0);
    assert_eq!(frames[0].depth, 0);
    assert_eq!(frames[0].from, caller);
    assert_eq!(frames[0].to.as_ref().unwrap(), &target);
    assert_eq!(frames[0].call_type, CallType::CallCode);
    assert_eq!(frames[0].gas_provided, 10_000);
    assert_eq!(frames[0].gas_used, 6_000);
    assert!(frames[0].success);
    assert_eq!(frames[0].input.as_ref().unwrap(), &vec![0xAB]);
    assert_eq!(frames[0].output.as_ref().unwrap(), &vec![0xCD, 0xEF]);
}

#[test]
fn nested_frames_record_their_depth() {
    let mut tracker = TrackingInspector::new();
    let a = vec![0x0Au8; 20];
    let b = vec![0x0Bu8; 20];
    tracker.call(a.clone(), b.clone(), CallType::Call, 1_000);
    tracker.call(b.clone(), a.clone(), CallType::Call, 800);
    tracker.call_end(None, 700, true, vec![]); // closes the inner frame
    tracker.call_end(None, 100, true, vec![]); // closes the outer frame

    let frames = tracker.call_frames();
    assert_eq!(frames.len(), 2);
    // Inner frame closed first, at depth 1
    assert_eq!(frames[0].depth, 1);
    assert_eq!(frames[1].depth, 0);
}

#[test]
fn tracker_counts_without_memory_padding() {
    let mut tracker = TrackingInspector::new();
    tracker.step(0x54, 95);
    let counts = tracker.operation_counts();
    assert_eq!(counts.sload_count, 1);
    assert_eq!(counts.total_ops, 1);
    // The passive tracker divides the byte size without rounding up
    assert_eq!(counts.memory_words_allocated, 2);
}

#[test]
fn emitted_logs_are_captured_in_order() {
    let mut tracker = TrackingInspector::new();
    let addr = vec![0x33u8; 20];
    tracker.log(addr.clone(), vec![vec![0x01u8; 32]], vec![1, 2]);
    tracker.log(addr.clone(), vec![], vec![3]);
    let logs = tracker.event_logs();
    assert_eq!(logs.len(), 2);
    assert_eq!(logs[0].log_index, 0);
    assert_eq!(logs[0].address, addr);
    assert_eq!(logs[0].topics.len(), 1);
    assert_eq!(logs[0].data, vec![1, 2]);
    assert_eq!(logs[1].log_index, 1);
    assert_eq!(logs[1].data, vec![3]);
}
