//! Divergence classification: turning two execution outcomes and the two
//! inspectors' captured data into a structured divergence record.

use vstd::prelude::*;

use crate::config::TraceDetail;
use crate::divergence::{
    CallFrame, CallTrees, Divergence, DivergenceLocation, DivergenceType, EventLog, EventLogs,
    GasAnalysis, OutOfGasInfo,
};
use crate::inspector::{opt_bytes_view, GasResearchInspector};
use crate::tracking_inspector::{EventLogEntry, TrackingInspector};

verus! {

/// The observed change to one account: its address and opaque canonical
/// encodings of its storage change and its resulting account information.
#[derive(Clone, Debug)]
pub struct AccountChange {
    /// The account's address (20 bytes)
    pub address: Vec<u8>,
    /// Canonical encoding of the account's storage change
    pub storage: Vec<u8>,
    /// Canonical encoding of the account's resulting information
    pub info: Vec<u8>,
}

/// What one execution of a transaction produced: its success flag, the gas it
/// used, the account-state diff, and the logs it emitted.
#[derive(Clone, Debug)]
pub struct ExecutionOutcome {
    /// Whether the execution succeeded
    pub success: bool,
    /// Gas consumed
    pub gas_used: u64,
    /// Account-state diff
    pub state: Vec<AccountChange>,
    /// Emitted logs, in order
    pub logs: Vec<EventLog>,
}

/// The first account of the diff carrying the given address, if any.
pub open spec fn find_account(s: Seq<AccountChange>, addr: Seq<u8>) -> Option<AccountChange>
    decreases s.len(),
{
    if s.len() == 0 {
        None
    } else if s[0].address@ == addr {
        Some(s[0])
    } else {
        find_account(s.drop_first(), addr)
    }
}

/// Whether an account of one diff has no equal counterpart in the other:
/// the other diff lacks its address, or differs in storage or info there.
pub open spec fn account_mismatch(a: AccountChange, e: Seq<AccountChange>) -> bool {
    match find_account(e, a.address@) {
        None => true,
        Some(b) => a.storage@ != b.storage@ || a.info@ != b.info@,
    }
}

/// Whether the two state diffs differ: in cardinality, or in some account's
/// storage or info.
pub open spec fn state_differs(n: Seq<AccountChange>, e: Seq<AccountChange>) -> bool {
    n.len() != e.len() || exists|i: int| 0 <= i < n.len() && account_mismatch(n[i], e)
}

/// The topic words of a log, as mathematical byte sequences.
pub open spec fn words_view(v: Vec<Vec<u8>>) -> Seq<Seq<u8>> {
    v@.map_values(|w: Vec<u8>| w@)
}

/// Whether one positional pair of logs differs in emitting address, topics,
/// or data.
pub open spec fn log_pair_differs(a: EventLog, b: EventLog) -> bool {
    a.address@ != b.address@ || words_view(a.topics) != words_view(b.topics) || a.data@ != b.data@
}

/// Whether the two log sequences differ: in count, or in some positional pair.
pub open spec fn logs_differ(n: Seq<EventLog>, e: Seq<EventLog>) -> bool {
    n.len() != e.len() || exists|i: int| 0 <= i < n.len() && log_pair_differs(n[i], e[i])
}

/// The tags the classifier owes for a pair of outcomes, in the order the
/// checks run: status, gas pattern, state diff, event logs.
pub open spec fn spec_expected_tags(
    normal: ExecutionOutcome,
    experimental: ExecutionOutcome,
    gas_multiplier: u64,
) -> Seq<DivergenceType> {
    let ratio = crate::divergence::spec_calculate_ratio(
        normal.gas_used,
        experimental.gas_used,
        gas_multiplier,
    );
    (if normal.success != experimental.success {
        seq![DivergenceType::Status]
    } else {
        Seq::empty()
    }) + (if ratio > 1_050_000 || ratio < 950_000 {
        seq![DivergenceType::GasPattern]
    } else {
        Seq::empty()
    }) + (if state_differs(normal.state@, experimental.state@) {
        seq![DivergenceType::StateRoot]
    } else {
        Seq::empty()
    }) + (if logs_differ(normal.logs@, experimental.logs@) {
        seq![DivergenceType::EventLogs]
    } else {
        Seq::empty()
    })
}

/// Whether two byte vectors hold the same bytes.
pub fn bytes_eq(a: &Vec<u8>, b: &Vec<u8>) -> (r: bool)
    ensures
        r == (a@ == b@),
{
    if a.len() != b.len() {
        return false;
    }
    let n = a.len();
    let mut i: usize = 0;
    while i < n
        invariant
            n == a@.len(),
            a@.len() == b@.len(),
            i <= n,
            forall|j: int| 0 <= j < i ==> a@[j] == b@[j],
        decreases n - i,
    {
        if a[i] != b[i] {
            return false;
        }
        i += 1;
    }
    proof {
        assert(a@ =~= b@);
    }
    true
}

/// Whether two vectors of byte words hold the same words.
fn byte_words_eq(a: &Vec<Vec<u8>>, b: &Vec<Vec<u8>>) -> (r: bool)
    ensures
        r == (words_view(*a) == words_view(*b)),
{
    if a.len() != b.len() {
        proof {
            assert(words_view(*a).len() != words_view(*b).len());
        }
        return false;
    }
    let n = a.len();
    let mut i: usize = 0;
    while i < n
        invariant
            n == a@.len(),
            a@.len() == b@.len(),
            i <= n,
            forall|j: int| 0 <= j < i ==> a@[j]@ == b@[j]@,
        decreases n - i,
    {
        if !bytes_eq(&a[i], &b[i]) {
            proof {
                assert(words_view(*a)[i as int] != words_view(*b)[i as int]);
            }
            return false;
        }
        i += 1;
    }
    proof {
        assert(words_view(*a) =~= words_view(*b));
    }
    true
}

/// The index of the first account of the diff carrying the address, if any.
fn find_account_index(s: &Vec<AccountChange>, addr: &Vec<u8>) -> (r: Option<usize>)
    ensures
        match r {
            Some(j) => j < s@.len() && s@[j as int].address@ == addr@ && (forall|k: int|
                0 <= k < j ==> s@[k].address@ != addr@),
            None => forall|k: int| 0 <= k < s@.len() ==> s@[k].address@ != addr@,
        },
{
    let n = s.len();
    let mut i: usize = 0;
    while i < n
        invariant
            n == s@.len(),
            i <= n,
            forall|k: int| 0 <= k < i ==> s@[k].address@ != addr@,
        decreases n - i,
    {
        if bytes_eq(&s[i].address, addr) {
            return Some(i);
        }
        i += 1;
    }
    None
}

/// A first match at index `j` is what `find_account` yields.
proof fn lemma_find_account_first_match(s: Seq<AccountChange>, addr: Seq<u8>, j: int)
    requires
        0 <= j < s.len(),
        s[j].address@ == addr,
        forall|k: int| 0 <= k < j ==> s[k].address@ != addr,
    ensures
        find_account(s, addr) == Some(s[j]),
    decreases j,
{
    if j > 0 {
        lemma_find_account_first_match(s.drop_first(), addr, j - 1);
    }
}

/// When no account carries the address, `find_account` yields nothing.
proof fn lemma_find_account_no_match(s: Seq<AccountChange>, addr: Seq<u8>)
    requires
        forall|k: int| 0 <= k < s.len() ==> s[k].address@ != addr,
    ensures
        find_account(s, addr) is None,
    decreases s.len(),
{
    if s.len() > 0 {
        lemma_find_account_no_match(s.drop_first(), addr);
    }
}

/// Whether the two state diffs differ, by the cardinality check and then a
/// linear scan that short-circuits on the first mismatching account.
fn state_diff_differs(n: &Vec<AccountChange>, e: &Vec<AccountChange>) -> (r: bool)
    ensures
        r == state_differs(n@, e@),
{
    if n.len() != e.len() {
        return true;
    }
    let len = n.len();
    let mut i: usize = 0;
    while i < len
        invariant
            len == n@.len(),
            i <= len,
            forall|k: int| 0 <= k < i ==> !account_mismatch(n@[k], e@),
        decreases len - i,
    {
        let mismatch: bool = match find_account_index(e, &n[i].address) {
            Some(j) => {
                proof {
                    lemma_find_account_first_match(e@, n@[i as int].address@, j as int);
                }
                !bytes_eq(&n[i].storage, &e[j].storage) || !bytes_eq(&n[i].info, &e[j].info)
            },
            None => {
                proof {
                    lemma_find_account_no_match(e@, n@[i as int].address@);
                }
                true
            },
        };
        if mismatch {
            proof {
                assert(account_mismatch(n@[i as int], e@));
            }
            return true;
        }
        i += 1;
    }
    false
}

/// Whether the two log sequences differ in count or in any positional pair.
fn event_logs_differ(n: &Vec<EventLog>, e: &Vec<EventLog>) -> (r: bool)
    ensures
        r == logs_differ(n@, e@),
{
    if n.len() != e.len() {
        return true;
    }
    let len = n.len();
    let mut i: usize = 0;
    while i < len
        invariant
            len == n@.len(),
            n@.len() == e@.len(),
            i <= len,
            forall|k: int| 0 <= k < i ==> !log_pair_differs(n@[k], e@[k]),
        decreases len - i,
    {
        if !bytes_eq(&n[i].address, &e[i].address) || !byte_words_eq(&n[i].topics, &e[i].topics)
            || !bytes_eq(&n[i].data, &e[i].data) {
            return true;
        }
        i += 1;
    }
    false
}

/// Compare the two executions' results, accumulating divergence tags in
/// check order — status, gas pattern, state diff, event logs; all checks run.
/// Returns the tags and the gas analysis.
pub fn compare_executions(
    normal: &ExecutionOutcome,
    experimental: &ExecutionOutcome,
    gas_multiplier: u64,
) -> (r: (Vec<DivergenceType>, GasAnalysis))
    requires
        gas_multiplier > 0,
    ensures
        r.0@ == spec_expected_tags(*normal, *experimental, gas_multiplier),
        r.1.normal_gas_used == normal.gas_used,
        r.1.experimental_gas_used == experimental.gas_used,
        r.1.gas_efficiency_ratio == crate::divergence::spec_calculate_ratio(
            normal.gas_used,
            experimental.gas_used,
            gas_multiplier,
        ),
{
    let mut tags: Vec<DivergenceType> = Vec::new();

    if normal.success != experimental.success {
        tags.push(DivergenceType::Status);
    }

    let ratio = GasAnalysis::calculate_ratio(normal.gas_used, experimental.gas_used,
        gas_multiplier);
    let gas_analysis = GasAnalysis {
        normal_gas_used: normal.gas_used,
        experimental_gas_used: experimental.gas_used,
        gas_efficiency_ratio: ratio,
    };
    if gas_analysis.is_structural_divergence() {
        tags.push(DivergenceType::GasPattern);
    }

    if state_diff_differs(&normal.state, &experimental.state) {
        tags.push(DivergenceType::StateRoot);
    }

    if event_logs_differ(&normal.logs, &experimental.logs) {
        tags.push(DivergenceType::EventLogs);
    }

    proof {
        assert(tags@ =~= spec_expected_tags(*normal, *experimental, gas_multiplier));
    }
    (tags, gas_analysis)
}

/// Whether two frames agree in every recorded field.
pub open spec fn frame_matches(a: CallFrame, b: CallFrame) -> bool {
    &&& a.call_index == b.call_index
    &&& a.depth == b.depth
    &&& a.from@ == b.from@
    &&& opt_bytes_view(a.to) == opt_bytes_view(b.to)
    &&& a.call_type == b.call_type
    &&& a.gas_provided == b.gas_provided
    &&& a.gas_used == b.gas_used
    &&& a.success == b.success
    &&& opt_bytes_view(a.input) == opt_bytes_view(b.input)
    &&& opt_bytes_view(a.output) == opt_bytes_view(b.output)
}

/// Whether two frame lists agree frame by frame.
pub open spec fn frames_match(a: Seq<CallFrame>, b: Seq<CallFrame>) -> bool {
    a.len() == b.len() && (forall|i: int| 0 <= i < a.len() ==> frame_matches(a[i], b[i]))
}

/// Whether an event log faithfully reproduces a captured log entry.
pub open spec fn log_entry_matches(e: EventLogEntry, l: EventLog) -> bool {
    &&& l.log_index == e.log_index
    &&& l.address@ == e.address@
    &&& words_view(l.topics) == words_view(e.topics)
    &&& l.data@ == e.data@
}

/// Whether two optional divergence locations agree in every field.
pub open spec fn loc_opt_matches(a: Option<DivergenceLocation>, b: Option<DivergenceLocation>) -> bool {
    match (a, b) {
        (Option::None, Option::None) => true,
        (Option::Some(x), Option::Some(y)) => {
            &&& x.contract@ == y.contract@
            &&& opt_bytes_view(x.function_selector) == opt_bytes_view(y.function_selector)
            &&& x.pc == y.pc
            &&& x.call_depth == y.call_depth
            &&& x.opcode == y.opcode
            &&& x.opcode_name@ == y.opcode_name@
        },
        _ => false,
    }
}

/// Whether two optional out-of-gas records agree in every field.
pub open spec fn oog_opt_matches(a: Option<OutOfGasInfo>, b: Option<OutOfGasInfo>) -> bool {
    match (a, b) {
        (Option::None, Option::None) => true,
        (Option::Some(x), Option::Some(y)) => {
            &&& x.opcode == y.opcode
            &&& x.opcode_name@ == y.opcode_name@
            &&& x.pc == y.pc
            &&& x.contract@ == y.contract@
            &&& x.call_depth == y.call_depth
            &&& x.gas_remaining == y.gas_remaining
            &&& x.pattern == y.pattern
        },
        _ => false,
    }
}

/// Copy a byte vector.
pub(crate) fn clone_bytes(v: &Vec<u8>) -> (r: Vec<u8>)
    ensures
        r@ == v@,
{
    let r = v.clone();
    proof {
        assert(r@ =~= v@);
    }
    r
}

/// Copy an optional byte payload.
fn clone_opt_bytes(o: &Option<Vec<u8>>) -> (r: Option<Vec<u8>>)
    ensures
        opt_bytes_view(r) == opt_bytes_view(*o),
{
    match o {
        Some(v) => Some(clone_bytes(v)),
        None => None,
    }
}

/// Copy a list of byte words.
fn clone_byte_words(v: &Vec<Vec<u8>>) -> (r: Vec<Vec<u8>>)
    ensures
        words_view(r) == words_view(*v),
{
    let mut r: Vec<Vec<u8>> = Vec::new();
    let mut i: usize = 0;
    while i < v.len()
        invariant
            i <= v@.len(),
            r@.len() == i,
            forall|j: int| 0 <= j < i ==> r@[j]@ == v@[j]@,
        decreases v@.len() - i,
    {
        r.push(clone_bytes(&v[i]));
        i += 1;
    }
    proof {
        assert(words_view(r) =~= words_view(*v));
    }
    r
}

/// Copy one call frame.
fn clone_frame(f: &CallFrame) -> (r: CallFrame)
    ensures
        frame_matches(r, *f),
{
    CallFrame {
        call_index: f.call_index,
        depth: f.depth,
        from: clone_bytes(&f.from),
        to: clone_opt_bytes(&f.to),
        call_type: f.call_type,
        gas_provided: f.gas_provided,
        gas_used: f.gas_used,
        success: f.success,
        input: clone_opt_bytes(&f.input),
        output: clone_opt_bytes(&f.output),
    }
}

/// Copy a call tree.
fn clone_frames(v: &Vec<CallFrame>) -> (r: Vec<CallFrame>)
    ensures
        frames_match(r@, v@),
{
    let mut r: Vec<CallFrame> = Vec::new();
    let mut i: usize = 0;
    while i < v.len()
        invariant
            i <= v@.len(),
            r@.len() == i,
            forall|j: int| 0 <= j < i ==> frame_matches(r@[j], v@[j]),
        decreases v@.len() - i,
    {
        r.push(clone_frame(&v[i]));
        i += 1;
    }
    r
}

/// Turn captured log entries into event logs, in order.
fn convert_event_logs(entries: &Vec<EventLogEntry>) -> (r: Vec<EventLog>)
    ensures
        r@.len() == entries@.len(),
        forall|i: int| 0 <= i < r@.len() ==> log_entry_matches(entries@[i], r@[i]),
{
    let mut r: Vec<EventLog> = Vec::new();
    let mut i: usize = 0;
    while i < entries.len()
        invariant
            i <= entries@.len(),
            r@.len() == i,
            forall|j: int| 0 <= j < i ==> log_entry_matches(entries@[j], r@[j]),
        decreases entries@.len() - i,
    {
        let e = &entries[i];
        r.push(
            EventLog {
                log_index: e.log_index,
                address: clone_bytes(&e.address),
                topics: clone_byte_words(&e.topics),
                data: clone_bytes(&e.data),
            },
        );
        i += 1;
    }
    r
}

/// Copy an optional divergence location.
pub(crate) fn clone_opt_location(o: &Option<DivergenceLocation>) -> (r: Option<DivergenceLocation>)
    ensures
        loc_opt_matches(r, *o),
{
    match o {
        Some(l) => Some(
            DivergenceLocation {
                contract: clone_bytes(&l.contract),
                function_selector: clone_opt_bytes(&l.function_selector),
                pc: l.pc,
                call_depth: l.call_depth,
                opcode: l.opcode,
                opcode_name: l.opcode_name.clone(),
            },
        ),
        None => None,
    }
}

/// Copy an optional out-of-gas record.
pub(crate) fn clone_opt_oog(o: &Option<OutOfGasInfo>) -> (r: Option<OutOfGasInfo>)
    ensures
        oog_opt_matches(r, *o),
{
    match o {
        Some(g) => Some(
            OutOfGasInfo {
                opcode: g.opcode,
                opcode_name: g.opcode_name.clone(),
                pc: g.pc,
                contract: clone_bytes(&g.contract),
                call_depth: g.call_depth,
                gas_remaining: g.gas_remaining,
                pattern: g.pattern,
            },
        ),
        None => None,
    }
}

/// The captured traces for a record: the call trees and event logs of both
/// runs when detailed tracing asks for them, nothing otherwise.
fn captured_traces(
    normal_inspector: &TrackingInspector,
    experimental_inspector: &GasResearchInspector,
    trace_detail: TraceDetail,
) -> (r: (Option<CallTrees>, Option<EventLogs>))
    ensures
        trace_detail == TraceDetail::Detailed ==> {
            &&& r.0 matches Some(ct) && frames_match(ct.normal@, normal_inspector.call_frames@)
                && frames_match(ct.experimental@, experimental_inspector.call_frames@)
            &&& r.1 matches Some(el) && el.normal@.len() == normal_inspector.event_logs@.len() && (
            forall|i: int|
                0 <= i < el.normal@.len() ==> log_entry_matches(
                    normal_inspector.event_logs@[i],
                    el.normal@[i],
                )) && el.experimental@.len() == experimental_inspector.event_logs@.len() && (
            forall|i: int|
                0 <= i < el.experimental@.len() ==> log_entry_matches(
                    experimental_inspector.event_logs@[i],
                    el.experimental@[i],
                ))
        },
        trace_detail != TraceDetail::Detailed ==> r.0 is None && r.1 is None,
{
    if trace_detail.include_call_trees() {
        let call_trees = CallTrees {
            normal: clone_frames(normal_inspector.call_frames()),
            experimental: clone_frames(experimental_inspector.call_frames()),
        };
        let event_logs = EventLogs {
            normal: convert_event_logs(normal_inspector.event_logs()),
            experimental: convert_event_logs(experimental_inspector.event_logs()),
        };
        (Some(call_trees), Some(event_logs))
    } else {
        (None, None)
    }
}

/// Build the divergence record for a transaction whose two runs both
/// completed: a record exists exactly when some tag was accumulated or the
/// simulator flagged a simulated out-of-gas (an OOG-only record is still
/// informative).
pub fn build_divergence(
    block_number: u64,
    tx_index: u64,
    tx_hash: Vec<u8>,
    timestamp: u64,
    divergence_types: Vec<DivergenceType>,
    gas_analysis: GasAnalysis,
    normal_inspector: &TrackingInspector,
    experimental_inspector: &GasResearchInspector,
    trace_detail: TraceDetail,
) -> (r: Option<Divergence>)
    ensures
        r is Some <==> (divergence_types@.len() > 0 || experimental_inspector.oog_occurred),
        r matches Some(d) ==> {
            &&& d.block_number == block_number
            &&& d.tx_index == tx_index
            &&& d.tx_hash@ == tx_hash@
            &&& d.timestamp == timestamp
            &&& d.divergence_types@ == divergence_types@
            &&& d.gas_analysis == gas_analysis
            &&& d.normal_ops == normal_inspector.op_counts
            &&& d.experimental_ops == experimental_inspector.op_counts
            &&& loc_opt_matches(
                d.divergence_location,
                experimental_inspector.first_divergence_location,
            )
            &&& oog_opt_matches(d.oog_info, experimental_inspector.oog_info)
            &&& trace_detail == TraceDetail::Detailed ==> {
                &&& d.call_trees matches Some(ct) && frames_match(
                    ct.normal@,
                    normal_inspector.call_frames@,
                ) && frames_match(ct.experimental@, experimental_inspector.call_frames@)
                &&& d.event_logs matches Some(el) && el.normal@.len()
                    == normal_inspector.event_logs@.len() && (forall|i: int|
                    0 <= i < el.normal@.len() ==> log_entry_matches(
                        normal_inspector.event_logs@[i],
                        el.normal@[i],
                    )) && el.experimental@.len()
                    == experimental_inspector.event_logs@.len() && (forall|i: int|
                    0 <= i < el.experimental@.len() ==> log_entry_matches(
                        experimental_inspector.event_logs@[i],
                        el.experimental@[i],
                    ))
            }
            &&& trace_detail != TraceDetail::Detailed ==> d.call_trees is None && d.event_logs
                is None
        },
{
    if divergence_types.len() == 0 && !experimental_inspector.oog_occurred() {
        return None;
    }
    let (call_trees, event_logs) = captured_traces(
        normal_inspector,
        experimental_inspector,
        trace_detail,
    );
    Some(
        Divergence {
            block_number,
            tx_index,
            tx_hash,
            timestamp,
            divergence_types,
            gas_analysis,
            normal_ops: *normal_inspector.operation_counts(),
            experimental_ops: *experimental_inspector.operation_counts(),
            divergence_location: clone_opt_location(experimental_inspector.divergence_location()),
            oog_info: clone_opt_oog(experimental_inspector.oog_info()),
            call_trees,
            event_logs,
        },
    )
}

/// Build the record for the distinguished critical case: the authoritative
/// run succeeded but the experimental run failed outright. The record is
/// always a `Status` divergence, and the experimental run's gas is treated
/// as unavailable (zeroed) rather than compared.
pub fn build_critical_divergence(
    block_number: u64,
    tx_index: u64,
    tx_hash: Vec<u8>,
    timestamp: u64,
    normal_gas_used: u64,
    normal_inspector: &TrackingInspector,
    experimental_inspector: &GasResearchInspector,
    trace_detail: TraceDetail,
) -> (d: Divergence)
    ensures
        d.block_number == block_number,
        d.tx_index == tx_index,
        d.tx_hash@ == tx_hash@,
        d.timestamp == timestamp,
        d.divergence_types@ =~= seq![DivergenceType::Status],
        d.gas_analysis.normal_gas_used == normal_gas_used,
        d.gas_analysis.experimental_gas_used == 0,
        d.gas_analysis.gas_efficiency_ratio == 0,
        d.normal_ops == normal_inspector.op_counts,
        d.experimental_ops == experimental_inspector.op_counts,
        loc_opt_matches(d.divergence_location, experimental_inspector.first_divergence_location),
        oog_opt_matches(d.oog_info, experimental_inspector.oog_info),
        trace_detail == TraceDetail::Detailed ==> {
            &&& d.call_trees matches Some(ct) && frames_match(
                ct.normal@,
                normal_inspector.call_frames@,
            ) && frames_match(ct.experimental@, experimental_inspector.call_frames@)
            &&& d.event_logs matches Some(el) && el.normal@.len()
                == normal_inspector.event_logs@.len() && (forall|i: int|
                0 <= i < el.normal@.len() ==> log_entry_matches(
                    normal_inspector.event_logs@[i],
                    el.normal@[i],
                )) && el.experimental@.len()
                == experimental_inspector.event_logs@.len() && (forall|i: int|
                0 <= i < el.experimental@.len() ==> log_entry_matches(
                    experimental_inspector.event_logs@[i],
                    el.experimental@[i],
                ))
        },
        trace_detail != TraceDetail::Detailed ==> d.call_trees is None && d.event_logs is None,
{
    let (call_trees, event_logs) = captured_traces(
        normal_inspector,
        experimental_inspector,
        trace_detail,
    );
    let mut divergence_types: Vec<DivergenceType> = Vec::new();
    divergence_types.push(DivergenceType::Status);
    Divergence {
        block_number,
        tx_index,
        tx_hash,
        timestamp,
        divergence_types,
        gas_analysis: GasAnalysis {
            normal_gas_used,
            experimental_gas_used: 0,
            gas_efficiency_ratio: 0,
        },
        normal_ops: *normal_inspector.operation_counts(),
        experimental_ops: *experimental_inspector.operation_counts(),
        divergence_location: clone_opt_location(experimental_inspector.divergence_location()),
        oog_info: clone_opt_oog(experimental_inspector.oog_info()),
        call_trees,
        event_logs,
    }
}

} // verus!
