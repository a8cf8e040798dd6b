//! Inspector for tracking execution and simulating gas cost changes.
//!
//! The execution engine reports each interpreter event (a step, a call or
//! create entered or exited) to the inspector as plain values; the inspector
//! maintains a shadow gas ledger under the multiplied cost schedule and
//! records what the engine under that schedule would have done differently.

use vstd::prelude::*;
use vstd::string::StringExecFns;
use std::collections::VecDeque;

use crate::config::ResearchConfig;
use crate::divergence::{
    CallFrame, CallType, DivergenceLocation, OogPattern, OperationCounts, OutOfGasInfo,
};

verus! {

/// Saturating product of two machine words.
pub open spec fn spec_sat_mul(a: u64, b: u64) -> u64 {
    if a * b > u64::MAX {
        u64::MAX
    } else {
        (a * b) as u64
    }
}

/// Saturating sum of two machine words.
pub open spec fn spec_sat_add(a: u64, b: u64) -> u64 {
    if a + b > u64::MAX {
        u64::MAX
    } else {
        (a + b) as u64
    }
}

/// Saturating difference of two machine words.
pub open spec fn spec_sat_sub(a: u64, b: u64) -> u64 {
    if a < b {
        0
    } else {
        (a - b) as u64
    }
}

/// Multiply, saturating at the numeric ceiling.
fn sat_mul(a: u64, b: u64) -> (r: u64)
    ensures
        r == spec_sat_mul(a, b),
{
    match a.checked_mul(b) {
        Some(v) => v,
        None => u64::MAX,
    }
}

/// Storage opcodes: SLOAD, SSTORE.
pub open spec fn is_storage_opcode(op: u8) -> bool {
    op == 0x54 || op == 0x55
}

/// Call-class opcodes: CALL, CALLCODE, DELEGATECALL, STATICCALL.
pub open spec fn is_call_opcode(op: u8) -> bool {
    op == 0xF1 || op == 0xF2 || op == 0xF4 || op == 0xFA
}

/// Memory-access opcodes: MLOAD, MSTORE, MSTORE8.
pub open spec fn is_memory_opcode(op: u8) -> bool {
    op == 0x51 || op == 0x52 || op == 0x53
}

/// Log opcodes: LOG0 through LOG4.
pub open spec fn is_log_opcode(op: u8) -> bool {
    0xA0 <= op && op <= 0xA4
}

/// Create opcodes: CREATE, CREATE2.
pub open spec fn is_create_opcode(op: u8) -> bool {
    op == 0xF0 || op == 0xF5
}

/// The estimated base gas cost of an opcode: a coarse static table — cheap
/// stack and arithmetic operations cost 3, storage 800/2900, call-class 700,
/// creates 32000, logs 375, plus a few explicit overrides.
pub open spec fn spec_opcode_gas_cost(op: u8) -> u64 {
    if op == 0x20 {
        30  // SHA3 base cost
    } else if op == 0x54 {
        800  // SLOAD, warm access
    } else if op == 0x55 {
        2900  // SSTORE, warm access
    } else if is_call_opcode(op) {
        700  // base cost of the call family
    } else if is_create_opcode(op) {
        32000
    } else if is_log_opcode(op) {
        375
    } else if op == 0x57 {
        10  // JUMPI
    } else if op == 0x56 {
        8  // JUMP
    } else if op == 0x58 || op == 0x59 || op == 0x5A {
        2  // PC, MSIZE, GAS
    } else {
        3
    }
}

/// Estimate base gas cost for an opcode.
/// This is a simplified estimation - real costs depend on context (memory, storage, etc.)
pub fn estimate_opcode_gas_cost(opcode: u8) -> (r: u64)
    ensures
        r == spec_opcode_gas_cost(opcode),
{
    if opcode == 0x20 {
        30
    } else if opcode == 0x54 {
        800
    } else if opcode == 0x55 {
        2900
    } else if opcode == 0xF1 || opcode == 0xF2 || opcode == 0xF4 || opcode == 0xFA {
        700
    } else if opcode == 0xF0 || opcode == 0xF5 {
        32000
    } else if 0xA0 <= opcode && opcode <= 0xA4 {
        375
    } else if opcode == 0x57 {
        10
    } else if opcode == 0x56 {
        8
    } else if opcode == 0x58 || opcode == 0x59 || opcode == 0x5A {
        2
    } else {
        3
    }
}

/// The lower-case hexadecimal digit for a value below sixteen.
pub open spec fn spec_hex_char(n: int) -> char {
    if n == 0 { '0' }
    else if n == 1 { '1' }
    else if n == 2 { '2' }
    else if n == 3 { '3' }
    else if n == 4 { '4' }
    else if n == 5 { '5' }
    else if n == 6 { '6' }
    else if n == 7 { '7' }
    else if n == 8 { '8' }
    else if n == 9 { '9' }
    else if n == 10 { 'a' }
    else if n == 11 { 'b' }
    else if n == 12 { 'c' }
    else if n == 13 { 'd' }
    else if n == 14 { 'e' }
    else { 'f' }
}

/// The display name of an opcode: `0x` followed by its two hex digits.
pub open spec fn spec_hex_name(op: u8) -> Seq<char> {
    seq!['0', 'x', spec_hex_char(op as int / 16), spec_hex_char(op as int % 16)]
}

/// The lower-case hexadecimal digit for a value below sixteen.
fn hex_digit_str(n: u8) -> (r: &'static str)
    requires
        n < 16,
    ensures
        r@ =~= seq![spec_hex_char(n as int)],
{
    let r = match n {
        0 => "0",
        1 => "1",
        2 => "2",
        3 => "3",
        4 => "4",
        5 => "5",
        6 => "6",
        7 => "7",
        8 => "8",
        9 => "9",
        10 => "a",
        11 => "b",
        12 => "c",
        13 => "d",
        14 => "e",
        _ => "f",
    };
    proof {
        reveal_strlit("0");
        reveal_strlit("1");
        reveal_strlit("2");
        reveal_strlit("3");
        reveal_strlit("4");
        reveal_strlit("5");
        reveal_strlit("6");
        reveal_strlit("7");
        reveal_strlit("8");
        reveal_strlit("9");
        reveal_strlit("a");
        reveal_strlit("b");
        reveal_strlit("c");
        reveal_strlit("d");
        reveal_strlit("e");
        reveal_strlit("f");
    }
    r
}

/// The display name of an opcode: `0x` followed by its two hex digits.
pub fn opcode_hex_name(op: u8) -> (r: String)
    ensures
        r@ == spec_hex_name(op),
{
    let hi = op / 16;
    let lo = op % 16;
    let s = String::from_str("0x").concat(hex_digit_str(hi)).concat(hex_digit_str(lo));
    proof {
        reveal_strlit("0x");
        assert(s@ =~= spec_hex_name(op));
    }
    s
}

/// Captured event log.
#[derive(Clone, Debug)]
pub struct EventLogEntry {
    /// Position of the log among all captured logs
    pub log_index: usize,
    /// Emitting address (20 bytes)
    pub address: Vec<u8>,
    /// Topic words (32 bytes each, at most four)
    pub topics: Vec<Vec<u8>>,
    /// Opaque data payload
    pub data: Vec<u8>,
}

/// Entry in the call stack.
#[derive(Clone, Debug)]
pub struct CallStackEntry {
    /// Depth of this frame: its index in the stack
    pub depth: usize,
    /// The contract being executed in this frame (20 bytes)
    pub contract: Vec<u8>,
    /// How the frame was entered
    pub call_type: CallType,
    /// Simulated gas total when the frame was entered
    pub gas_at_start: u64,
}

/// Gas opcode usage event for loop detection.
#[derive(Clone, Debug)]
pub struct GasOpcodeEvent {
    /// Program counter at the GAS opcode
    pub pc: usize,
    /// Gas remaining when it executed
    pub gas_remaining: u64,
    /// The contract that executed it (20 bytes)
    pub contract: Vec<u8>,
}

/// How many events in the window carry the given program counter.
pub open spec fn count_pc(w: Seq<GasOpcodeEvent>, pc: usize) -> nat
    decreases w.len(),
{
    if w.len() == 0 {
        0
    } else {
        count_pc(w.drop_last(), pc) + if w.last().pc == pc { 1nat } else { 0nat }
    }
}

/// A loop pattern shows when some single program counter appears at least
/// three times in the window.
pub open spec fn spec_has_loop(w: Seq<GasOpcodeEvent>) -> bool {
    exists|i: int| 0 <= i < w.len() && count_pc(w, w[i].pc) >= 3
}

/// No program counter can appear more often than the window is long.
pub proof fn lemma_count_pc_le_len(w: Seq<GasOpcodeEvent>, pc: usize)
    ensures
        count_pc(w, pc) <= w.len(),
    decreases w.len(),
{
    if w.len() > 0 {
        lemma_count_pc_le_len(w.drop_last(), pc);
    }
}

/// A window holding fewer than three events never flags a loop pattern.
pub proof fn lemma_short_window_has_no_loop(w: Seq<GasOpcodeEvent>)
    requires
        w.len() < 3,
    ensures
        !spec_has_loop(w),
{
    assert forall|i: int| 0 <= i < w.len() implies count_pc(w, w[i].pc) < 3 by {
        lemma_count_pc_le_len(w, w[i].pc);
    }
}

/// The contract on top of the stack, or the all-zero address outside any frame.
pub open spec fn spec_current_contract(stack: Seq<CallStackEntry>) -> Seq<u8> {
    if stack.len() > 0 {
        stack.last().contract@
    } else {
        zero_address_seq()
    }
}

/// The all-zero 20-byte address.
pub open spec fn zero_address_seq() -> Seq<u8> {
    Seq::new(20, |i: int| 0u8)
}

/// The all-zero 20-byte address.
pub fn zero_address() -> (r: Vec<u8>)
    ensures
        r@ == zero_address_seq(),
{
    let mut v: Vec<u8> = Vec::new();
    let mut i: usize = 0;
    while i < 20
        invariant
            i <= 20,
            v@.len() == i,
            forall|j: int| 0 <= j < i ==> v@[j] == 0u8,
        decreases 20 - i,
    {
        v.push(0);
        i += 1;
    }
    proof {
        assert(v@ =~= zero_address_seq());
    }
    v
}

/// The view of an optional byte payload.
pub open spec fn opt_bytes_view(o: Option<Vec<u8>>) -> Option<Seq<u8>> {
    match o {
        Some(v) => Some(v@),
        None => None,
    }
}

/// The kind of a hook invocation, for stating the stack discipline.
#[derive(Clone, Copy, Debug, PartialEq, Eq, Structural)]
pub enum HookEventKind {
    /// One interpreter step
    Step,
    /// A call frame was entered
    CallEnter,
    /// A call frame was exited
    CallExit,
    /// A creation frame was entered
    CreateEnter,
    /// A creation frame was exited
    CreateExit,
    /// A log was emitted
    LogEmitted,
}

/// How one hook invocation moves the pair (open frames, closed frames):
/// an enter opens a frame; an exit closes the innermost open frame and
/// records it, or does nothing when no frame is open; nothing else moves
/// the pair.
pub open spec fn hook_transition(s: (nat, nat), k: HookEventKind) -> (nat, nat) {
    match k {
        HookEventKind::CallEnter | HookEventKind::CreateEnter => ((s.0 + 1) as nat, s.1),
        HookEventKind::CallExit | HookEventKind::CreateExit => if s.0 > 0 {
            ((s.0 - 1) as nat, (s.1 + 1) as nat)
        } else {
            s
        },
        _ => s,
    }
}

/// The pair (open frames, closed frames) after a sequence of hook invocations.
pub open spec fn hook_run(s: (nat, nat), evs: Seq<HookEventKind>) -> (nat, nat)
    decreases evs.len(),
{
    if evs.len() == 0 {
        s
    } else {
        hook_transition(hook_run(s, evs.drop_last()), evs.last())
    }
}

/// How many events of a sequence enter a frame.
pub open spec fn enter_count(evs: Seq<HookEventKind>) -> nat
    decreases evs.len(),
{
    if evs.len() == 0 {
        0
    } else {
        enter_count(evs.drop_last()) + if evs.last() == HookEventKind::CallEnter || evs.last()
            == HookEventKind::CreateEnter {
            1nat
        } else {
            0nat
        }
    }
}

/// How many events of a sequence exit a frame.
pub open spec fn exit_count(evs: Seq<HookEventKind>) -> nat
    decreases evs.len(),
{
    if evs.len() == 0 {
        0
    } else {
        exit_count(evs.drop_last()) + if evs.last() == HookEventKind::CallExit || evs.last()
            == HookEventKind::CreateExit {
            1nat
        } else {
            0nat
        }
    }
}

/// Call-frame stack discipline: starting from no frames, after any sequence
/// of hook invocations the number of recorded closed frames never exceeds the
/// number of enter events, nor the number of exit events — an enter with no
/// matching exit leaves no frame recorded — and the open and closed frames
/// together account exactly for the enters.
pub proof fn lemma_call_frame_stack_discipline(evs: Seq<HookEventKind>)
    ensures
        hook_run((0, 0), evs).1 <= enter_count(evs),
        hook_run((0, 0), evs).1 <= exit_count(evs),
        hook_run((0, 0), evs).0 + hook_run((0, 0), evs).1 == enter_count(evs),
    decreases evs.len(),
{
    if evs.len() > 0 {
        lemma_call_frame_stack_discipline(evs.drop_last());
    }
}

/// How one interpreter step changes the operation tallies: the total rises by
/// one, the tally of the opcode's class rises by one, and the peak memory
/// word count is raised to `words` if that is higher.
pub open spec fn spec_step_counts(c: OperationCounts, opcode: u8, words: int) -> OperationCounts {
    OperationCounts {
        total_ops: (c.total_ops + 1) as u64,
        sload_count: if opcode == 0x54 {
            (c.sload_count + 1) as u64
        } else {
            c.sload_count
        },
        sstore_count: if opcode == 0x55 {
            (c.sstore_count + 1) as u64
        } else {
            c.sstore_count
        },
        call_count: if is_call_opcode(opcode) {
            (c.call_count + 1) as u64
        } else {
            c.call_count
        },
        log_count: if is_log_opcode(opcode) {
            (c.log_count + 1) as u64
        } else {
            c.log_count
        },
        create_count: if is_create_opcode(opcode) {
            (c.create_count + 1) as u64
        } else {
            c.create_count
        },
        memory_words_allocated: if words > c.memory_words_allocated {
            words as u64
        } else {
            c.memory_words_allocated
        },
    }
}

/// Tallies only ever grow: one step never decreases any count.
pub proof fn lemma_step_counts_monotonic(c: OperationCounts, opcode: u8, words: int)
    requires
        c.wf(),
        c.total_ops < u64::MAX,
        0 <= words <= u64::MAX,
    ensures
        spec_step_counts(c, opcode, words).total_ops > c.total_ops,
        spec_step_counts(c, opcode, words).sload_count >= c.sload_count,
        spec_step_counts(c, opcode, words).sstore_count >= c.sstore_count,
        spec_step_counts(c, opcode, words).call_count >= c.call_count,
        spec_step_counts(c, opcode, words).log_count >= c.log_count,
        spec_step_counts(c, opcode, words).create_count >= c.create_count,
        spec_step_counts(c, opcode, words).memory_words_allocated >= c.memory_words_allocated,
{
}

/// Apply one step to the operation tallies.
pub(crate) fn step_counts(c: &mut OperationCounts, opcode: u8, words: u64)
    requires
        old(c).wf(),
        old(c).total_ops < u64::MAX,
    ensures
        *final(c) == spec_step_counts(*old(c), opcode, words as int),
        final(c).wf(),
{
    c.total_ops = c.total_ops + 1;
    if opcode == 0x54 {
        c.sload_count = c.sload_count + 1;
    } else if opcode == 0x55 {
        c.sstore_count = c.sstore_count + 1;
    } else if opcode == 0xF1 || opcode == 0xF2 || opcode == 0xF4 || opcode == 0xFA {
        c.call_count = c.call_count + 1;
    } else if 0xA0 <= opcode && opcode <= 0xA4 {
        c.log_count = c.log_count + 1;
    } else if opcode == 0xF0 || opcode == 0xF5 {
        c.create_count = c.create_count + 1;
    }
    if words > c.memory_words_allocated {
        c.memory_words_allocated = words;
    }
}

/// The bound kept on the loop-detection window.
pub open spec fn window_capacity() -> int {
    1000
}

/// How recording one gas-check event changes the window: the event goes on
/// the back, and the oldest event is evicted once the window is full.
pub open spec fn window_updated(
    oldw: Seq<GasOpcodeEvent>,
    neww: Seq<GasOpcodeEvent>,
    pc: usize,
    gas_remaining: u64,
    contract: Seq<u8>,
) -> bool {
    &&& neww.len() == if oldw.len() < window_capacity() {
        oldw.len() + 1
    } else {
        window_capacity() as nat
    }
    &&& neww.drop_last() =~= (if oldw.len() < window_capacity() {
        oldw
    } else {
        oldw.skip(oldw.len() - window_capacity() + 1)
    })
    &&& neww.last().pc == pc
    &&& neww.last().gas_remaining == gas_remaining
    &&& neww.last().contract@ == contract
}

/// What the simulated gas ceiling is: the transaction's gas limit inflated by
/// the effective gas-limit multiplier, less the intrinsic-gas adjustment that
/// keeps the fixed per-transaction base cost from being multiplied.
pub open spec fn spec_simulated_gas_limit(config: ResearchConfig, gas_limit: u64) -> u64 {
    spec_sat_sub(
        spec_sat_mul(gas_limit, config.spec_effective_gas_limit_multiplier()),
        (21000 * (config.gas_multiplier - 1)) as u64,
    )
}

/// Which pattern explains a simulated out-of-gas, by precedence: a storage
/// opcode, a call-class opcode, a memory-access opcode, a repeating program
/// counter in the gas-check window, or nothing recognizable.
pub open spec fn spec_infer_oog_pattern(opcode: u8, w: Seq<GasOpcodeEvent>) -> OogPattern {
    if is_storage_opcode(opcode) {
        OogPattern::StorageHeavy
    } else if is_call_opcode(opcode) {
        OogPattern::CallChain
    } else if is_memory_opcode(opcode) {
        OogPattern::MemoryExpansion
    } else if spec_has_loop(w) {
        OogPattern::Loop
    } else {
        OogPattern::Unknown
    }
}

/// Inspector that simulates high gas costs and tracks execution details.
#[derive(Debug)]
pub struct GasResearchInspector {
    /// Configuration
    pub config: ResearchConfig,
    /// Simulated gas used (with multiplier applied)
    pub simulated_gas_used: u64,
    /// Simulated gas limit (inflated)
    pub simulated_gas_limit: u64,
    /// Whether out-of-gas occurred in simulation
    pub oog_occurred: bool,
    /// Operation counts
    pub op_counts: OperationCounts,
    /// Call stack for tracking depth
    pub call_stack: Vec<CallStackEntry>,
    /// Recorded call frames
    pub call_frames: Vec<CallFrame>,
    /// Location of first divergence (if any)
    pub first_divergence_location: Option<DivergenceLocation>,
    /// Out-of-gas information
    pub oog_info: Option<OutOfGasInfo>,
    /// Gas opcode usage tracking (for loop detection)
    pub gas_opcode_usage: VecDeque<GasOpcodeEvent>,
    /// Maximum entries to track for gas loop detection
    pub max_gas_events: usize,
    /// Event logs captured
    pub event_logs: Vec<EventLogEntry>,
}

impl GasResearchInspector {
    /// The inspector's internal invariant: tallies are consistent, nothing
    /// about an out-of-gas is recorded before one occurs, the window is
    /// bounded, and stack entries know their own depth.
    pub open spec fn inv(self) -> bool {
        &&& self.op_counts.wf()
        &&& (!self.oog_occurred ==> self.oog_info is None && self.first_divergence_location
            is None)
        &&& self.max_gas_events == window_capacity()
        &&& self.gas_opcode_usage@.len() <= window_capacity()
        &&& (forall|i: int|
            0 <= i < self.call_stack@.len() ==> #[trigger] self.call_stack@[i].depth == i)
    }

    /// Create a new inspector.
    pub fn new(config: ResearchConfig, gas_limit: u64) -> (r: Self)
        requires
            config.gas_multiplier >= 1,
            21000 * (config.gas_multiplier - 1) <= u64::MAX,
        ensures
            r.inv(),
            r.config == config,
            r.simulated_gas_used == 0,
            r.simulated_gas_limit == spec_simulated_gas_limit(config, gas_limit),
            r.oog_occurred == false,
            r.op_counts == OperationCounts::spec_zero(),
            r.call_stack@.len() == 0,
            r.call_frames@.len() == 0,
            r.first_divergence_location is None,
            r.oog_info is None,
            r.gas_opcode_usage@.len() == 0,
            r.max_gas_events == window_capacity(),
            r.event_logs@.len() == 0,
    {
        let intrinsic_adjustment: u64 = 21000 * (config.gas_multiplier - 1);
        let simulated_gas_limit = sat_mul(
            gas_limit,
            config.effective_gas_limit_multiplier(),
        ).saturating_sub(intrinsic_adjustment);
        GasResearchInspector {
            config,
            simulated_gas_used: 0,
            simulated_gas_limit,
            oog_occurred: false,
            op_counts: Default::default(),
            call_stack: Vec::new(),
            call_frames: Vec::new(),
            first_divergence_location: None,
            oog_info: None,
            gas_opcode_usage: VecDeque::new(),
            max_gas_events: 1000,
            event_logs: Vec::new(),
        }
    }

    /// Get the operation counts.
    pub fn operation_counts(&self) -> (r: &OperationCounts)
        ensures
            *r == self.op_counts,
    {
        &self.op_counts
    }

    /// Get the call frames.
    pub fn call_frames(&self) -> (r: &Vec<CallFrame>)
        ensures
            *r == self.call_frames,
    {
        &self.call_frames
    }

    /// Get the divergence location.
    pub fn divergence_location(&self) -> (r: &Option<DivergenceLocation>)
        ensures
            *r == self.first_divergence_location,
    {
        &self.first_divergence_location
    }

    /// Get out-of-gas information.
    pub fn oog_info(&self) -> (r: &Option<OutOfGasInfo>)
        ensures
            *r == self.oog_info,
    {
        &self.oog_info
    }

    /// Get the event logs.
    pub fn event_logs(&self) -> (r: &Vec<EventLogEntry>)
        ensures
            *r == self.event_logs,
    {
        &self.event_logs
    }

    /// Check if OOG occurred.
    pub fn oog_occurred(&self) -> (r: bool)
        ensures
            r == self.oog_occurred,
    {
        self.oog_occurred
    }

    /// Get simulated gas used.
    pub fn simulated_gas_used(&self) -> (r: u64)
        ensures
            r == self.simulated_gas_used,
    {
        self.simulated_gas_used
    }

    /// Check if a potential gas-dependent loop is detected: some single
    /// program counter appears at least three times in the window.
    pub fn has_gas_loop_pattern(&self) -> (r: bool)
        ensures
            r == spec_has_loop(self.gas_opcode_usage@),
    {
        let w = &self.gas_opcode_usage;
        if w.len() < 3 {
            proof {
                lemma_short_window_has_no_loop(w@);
            }
            return false;
        }
        let n = w.len();
        let mut i: usize = 0;
        while i < n
            invariant
                w@ == self.gas_opcode_usage@,
                n == w@.len(),
                i <= n,
                forall|k: int| 0 <= k < i ==> count_pc(w@, w@[k].pc) < 3,
            decreases n - i,
        {
            let pc = w[i].pc;
            let mut count: u64 = 0;
            let mut j: usize = 0;
            while j < n
                invariant
                    n == w@.len(),
                    j <= n,
                    count == count_pc(w@.take(j as int), pc),
                    count <= j,
                decreases n - j,
            {
                proof {
                    assert(w@.take(j + 1 as int).drop_last() =~= w@.take(j as int));
                }
                if w[j].pc == pc {
                    count = count + 1;
                }
                j += 1;
            }
            proof {
                assert(w@.take(n as int) =~= w@);
            }
            if count >= 3 {
                proof {
                    assert(spec_has_loop(w@)) by {
                        assert((i as int) < w@.len() && count_pc(w@, w@[i as int].pc) >= 3);
                    }
                }
                return true;
            }
            i += 1;
        }
        false
    }

    /// Calculate the gas cost for an operation with the multiplier applied.
    pub fn calculate_gas_cost(&self, base_cost: u64) -> (r: u64)
        ensures
            r == spec_sat_mul(base_cost, self.config.gas_multiplier),
    {
        sat_mul(base_cost, self.config.gas_multiplier)
    }

    /// The contract of the innermost open frame, or the zero address.
    fn current_contract(&self) -> (r: Vec<u8>)
        ensures
            r@ == spec_current_contract(self.call_stack@),
    {
        if self.call_stack.len() > 0 {
            let r = self.call_stack[self.call_stack.len() - 1].contract.clone();
            proof {
                assert(r@ =~= self.call_stack@.last().contract@);
            }
            r
        } else {
            zero_address()
        }
    }

    /// Record a divergence location if not already recorded (first-write-wins).
    fn record_divergence_location(&mut self, pc: usize, opcode: u8, opcode_name: String)
        ensures
            old(self).first_divergence_location is None ==> (final(self).first_divergence_location
                matches Some(loc) && loc.contract@
                == spec_current_contract(old(self).call_stack@) && loc.function_selector is None
                && loc.pc == pc && loc.call_depth == old(self).call_stack@.len() && loc.opcode
                == opcode && loc.opcode_name@ == opcode_name@),
            old(self).first_divergence_location is Some ==> final(self).first_divergence_location
                == old(self).first_divergence_location,
            final(self).config == old(self).config,
            final(self).simulated_gas_used == old(self).simulated_gas_used,
            final(self).simulated_gas_limit == old(self).simulated_gas_limit,
            final(self).oog_occurred == old(self).oog_occurred,
            final(self).op_counts == old(self).op_counts,
            final(self).call_stack == old(self).call_stack,
            final(self).call_frames == old(self).call_frames,
            final(self).oog_info == old(self).oog_info,
            final(self).gas_opcode_usage == old(self).gas_opcode_usage,
            final(self).max_gas_events == old(self).max_gas_events,
            final(self).event_logs == old(self).event_logs,
    {
        if self.first_divergence_location.is_none() {
            let contract = self.current_contract();
            self.first_divergence_location = Some(
                DivergenceLocation {
                    contract,
                    function_selector: None,
                    pc,
                    call_depth: self.call_stack.len(),
                    opcode,
                    opcode_name,
                },
            );
        }
    }

    /// Infer the OOG pattern based on context.
    fn infer_oog_pattern(&self, opcode: u8) -> (r: OogPattern)
        ensures
            r == spec_infer_oog_pattern(opcode, self.gas_opcode_usage@),
    {
        if opcode == 0x54 || opcode == 0x55 {
            OogPattern::StorageHeavy
        } else if opcode == 0xF1 || opcode == 0xF2 || opcode == 0xF4 || opcode == 0xFA {
            OogPattern::CallChain
        } else if opcode == 0x51 || opcode == 0x52 || opcode == 0x53 {
            OogPattern::MemoryExpansion
        } else if self.has_gas_loop_pattern() {
            OogPattern::Loop
        } else {
            OogPattern::Unknown
        }
    }

    /// Record OOG information if not already recorded (first-write-wins).
    fn record_oog(&mut self, pc: usize, opcode: u8, opcode_name: String, gas_remaining: u64)
        ensures
            old(self).oog_info is None ==> (final(self).oog_info matches Some(info)
                && info.opcode == opcode && info.opcode_name@ == opcode_name@ && info.pc == pc
                && info.contract@ == spec_current_contract(old(self).call_stack@)
                && info.call_depth == old(self).call_stack@.len() && info.gas_remaining
                == gas_remaining && info.pattern == spec_infer_oog_pattern(
                opcode,
                old(self).gas_opcode_usage@,
            )),
            old(self).oog_info is Some ==> final(self).oog_info == old(self).oog_info,
            final(self).config == old(self).config,
            final(self).simulated_gas_used == old(self).simulated_gas_used,
            final(self).simulated_gas_limit == old(self).simulated_gas_limit,
            final(self).oog_occurred == old(self).oog_occurred,
            final(self).op_counts == old(self).op_counts,
            final(self).call_stack == old(self).call_stack,
            final(self).call_frames == old(self).call_frames,
            final(self).first_divergence_location == old(self).first_divergence_location,
            final(self).gas_opcode_usage == old(self).gas_opcode_usage,
            final(self).max_gas_events == old(self).max_gas_events,
            final(self).event_logs == old(self).event_logs,
    {
        if self.oog_info.is_none() {
            let contract = self.current_contract();
            let pattern = self.infer_oog_pattern(opcode);
            self.oog_info = Some(
                OutOfGasInfo {
                    opcode,
                    opcode_name,
                    pc,
                    contract,
                    call_depth: self.call_stack.len(),
                    gas_remaining,
                    pattern,
                },
            );
        }
    }

    /// Track a GAS opcode usage in the bounded window.
    fn track_gas_opcode(&mut self, pc: usize, gas_remaining: u64)
        requires
            old(self).inv(),
        ensures
            final(self).inv(),
            window_updated(
                old(self).gas_opcode_usage@,
                final(self).gas_opcode_usage@,
                pc,
                gas_remaining,
                spec_current_contract(old(self).call_stack@),
            ),
            final(self).config == old(self).config,
            final(self).simulated_gas_used == old(self).simulated_gas_used,
            final(self).simulated_gas_limit == old(self).simulated_gas_limit,
            final(self).oog_occurred == old(self).oog_occurred,
            final(self).op_counts == old(self).op_counts,
            final(self).call_stack == old(self).call_stack,
            final(self).call_frames == old(self).call_frames,
            final(self).first_divergence_location == old(self).first_divergence_location,
            final(self).oog_info == old(self).oog_info,
            final(self).max_gas_events == old(self).max_gas_events,
            final(self).event_logs == old(self).event_logs,
    {
        let contract = self.current_contract();
        self.gas_opcode_usage.push_back(GasOpcodeEvent { pc, gas_remaining, contract });
        let ghost w1 = self.gas_opcode_usage@;
        while self.gas_opcode_usage.len() > self.max_gas_events
            invariant
                self.max_gas_events == window_capacity(),
                w1.len() <= window_capacity() + 1,
                self.gas_opcode_usage@.len() <= w1.len(),
                self.gas_opcode_usage@ =~= w1.skip(w1.len() - self.gas_opcode_usage@.len()),
                self.gas_opcode_usage@.len() == w1.len() || self.gas_opcode_usage@.len()
                    >= window_capacity(),
                self.config == old(self).config,
                self.simulated_gas_used == old(self).simulated_gas_used,
                self.simulated_gas_limit == old(self).simulated_gas_limit,
                self.oog_occurred == old(self).oog_occurred,
                self.op_counts == old(self).op_counts,
                self.call_stack == old(self).call_stack,
                self.call_frames == old(self).call_frames,
                self.first_divergence_location == old(self).first_divergence_location,
                self.oog_info == old(self).oog_info,
                self.max_gas_events == old(self).max_gas_events,
                self.event_logs == old(self).event_logs,
            decreases self.gas_opcode_usage@.len(),
        {
            self.gas_opcode_usage.pop_front();
        }
        proof {
            let oldw = old(self).gas_opcode_usage@;
            let neww = self.gas_opcode_usage@;
            assert(w1 =~= oldw.push(w1.last()));
            if oldw.len() < window_capacity() {
                assert(neww =~= w1);
                assert(neww.drop_last() =~= oldw);
            } else {
                assert(neww.drop_last() =~= oldw.skip(oldw.len() - window_capacity() + 1));
            }
        }
    }

    /// Observe one interpreter step: count the operation, feed the loop
    /// window on a GAS opcode, add the multiplied estimated cost to the
    /// shadow ledger, and on first crossing of the simulated ceiling record
    /// the out-of-gas information and the divergence location. The hosted
    /// execution is never altered.
    pub fn step(&mut self, pc: usize, opcode: u8, gas_remaining: u64, memory_size: usize)
        requires
            old(self).inv(),
            old(self).op_counts.total_ops < u64::MAX,
            memory_size <= usize::MAX - 31,
        ensures
            final(self).inv(),
            final(self).op_counts == spec_step_counts(
                old(self).op_counts,
                opcode,
                (memory_size + 31) / 32,
            ),
            final(self).simulated_gas_used == spec_sat_add(
                old(self).simulated_gas_used,
                spec_sat_mul(spec_opcode_gas_cost(opcode), old(self).config.gas_multiplier),
            ),
            final(self).oog_occurred == (old(self).oog_occurred || final(self).simulated_gas_used
                > old(self).simulated_gas_limit),
            (opcode == 0x5A && old(self).config.detect_gas_loops) ==> window_updated(
                old(self).gas_opcode_usage@,
                final(self).gas_opcode_usage@,
                pc,
                gas_remaining,
                spec_current_contract(old(self).call_stack@),
            ),
            !(opcode == 0x5A && old(self).config.detect_gas_loops)
                ==> final(self).gas_opcode_usage@ == old(self).gas_opcode_usage@,
            (!old(self).oog_occurred
                && final(self).simulated_gas_used > old(self).simulated_gas_limit) ==> {
                &&& final(self).oog_info matches Some(info) && info.opcode == opcode
                    && info.opcode_name@ == spec_hex_name(opcode) && info.pc == pc
                    && info.contract@ == spec_current_contract(old(self).call_stack@)
                    && info.call_depth == old(self).call_stack@.len() && info.gas_remaining
                    == gas_remaining && info.pattern == spec_infer_oog_pattern(
                    opcode,
                    final(self).gas_opcode_usage@,
                )
                &&& final(self).first_divergence_location matches Some(loc) && loc.contract@
                    == spec_current_contract(old(self).call_stack@) && loc.function_selector
                    is None && loc.pc == pc && loc.call_depth == old(self).call_stack@.len()
                    && loc.opcode == opcode && loc.opcode_name@ == spec_hex_name(opcode)
            },
            (old(self).oog_occurred
                || final(self).simulated_gas_used <= old(self).simulated_gas_limit)
                ==> final(self).oog_info == old(self).oog_info
                && final(self).first_divergence_location == old(self).first_divergence_location,
            final(self).config == old(self).config,
            final(self).simulated_gas_limit == old(self).simulated_gas_limit,
            final(self).call_stack == old(self).call_stack,
            final(self).call_frames == old(self).call_frames,
            final(self).max_gas_events == old(self).max_gas_events,
            final(self).event_logs == old(self).event_logs,
    {
        let memory_words = (memory_size + 31) / 32;
        step_counts(&mut self.op_counts, opcode, memory_words as u64);

        if opcode == 0x5A && self.config.detect_gas_loops {
            self.track_gas_opcode(pc, gas_remaining);
        }

        let estimated_base_cost = estimate_opcode_gas_cost(opcode);
        let simulated_cost = self.calculate_gas_cost(estimated_base_cost);
        self.simulated_gas_used = self.simulated_gas_used.saturating_add(simulated_cost);

        if !self.oog_occurred && self.simulated_gas_used > self.simulated_gas_limit {
            self.oog_occurred = true;
            let opcode_name = opcode_hex_name(opcode);
            let opcode_name_again = opcode_name.clone();
            self.record_oog(pc, opcode, opcode_name, gas_remaining);
            self.record_divergence_location(pc, opcode, opcode_name_again);
        }
    }

    /// Observe entry into a call frame. The simulation never short-circuits
    /// the hosted call, so nothing is returned.
    pub fn call(&mut self, bytecode_address: Vec<u8>, call_type: CallType)
        requires
            old(self).inv(),
        ensures
            final(self).inv(),
            final(self).call_stack@.len() == old(self).call_stack@.len() + 1,
            final(self).call_stack@.drop_last() =~= old(self).call_stack@,
            final(self).call_stack@.last().depth == old(self).call_stack@.len(),
            final(self).call_stack@.last().contract@ == bytecode_address@,
            final(self).call_stack@.last().call_type == call_type,
            final(self).call_stack@.last().gas_at_start == old(self).simulated_gas_used,
            (final(self).call_stack@.len() as nat, final(self).call_frames@.len() as nat)
                == hook_transition(
                (old(self).call_stack@.len() as nat, old(self).call_frames@.len() as nat),
                HookEventKind::CallEnter,
            ),
            final(self).config == old(self).config,
            final(self).simulated_gas_used == old(self).simulated_gas_used,
            final(self).simulated_gas_limit == old(self).simulated_gas_limit,
            final(self).oog_occurred == old(self).oog_occurred,
            final(self).op_counts == old(self).op_counts,
            final(self).call_frames == old(self).call_frames,
            final(self).first_divergence_location == old(self).first_divergence_location,
            final(self).oog_info == old(self).oog_info,
            final(self).gas_opcode_usage == old(self).gas_opcode_usage,
            final(self).max_gas_events == old(self).max_gas_events,
            final(self).event_logs == old(self).event_logs,
    {
        let depth = self.call_stack.len();
        let gas_at_start = self.simulated_gas_used;
        self.call_stack.push(
            CallStackEntry { depth, contract: bytecode_address, call_type, gas_at_start },
        );
    }

    /// Observe exit from a call frame: close the innermost open frame and
    /// record it. An exit with no matching open frame is ignored.
    pub fn call_end(
        &mut self,
        caller: Vec<u8>,
        bytecode_address: Vec<u8>,
        gas_limit: u64,
        input: Option<Vec<u8>>,
        success: bool,
        output: Vec<u8>,
    )
        requires
            old(self).inv(),
        ensures
            final(self).inv(),
            old(self).call_stack@.len() == 0 ==> final(self).call_stack@ == old(self).call_stack@
                && final(self).call_frames@ == old(self).call_frames@,
            old(self).call_stack@.len() > 0 ==> {
                &&& final(self).call_stack@ =~= old(self).call_stack@.drop_last()
                &&& final(self).call_frames@.len() == old(self).call_frames@.len() + 1
                &&& final(self).call_frames@.drop_last() =~= old(self).call_frames@
                &&& final(self).call_frames@.last().call_index == old(self).call_frames@.len()
                &&& final(self).call_frames@.last().depth == old(self).call_stack@.last().depth
                &&& final(self).call_frames@.last().from@ == caller@
                &&& final(self).call_frames@.last().to matches Some(t) && t@ == bytecode_address@
                &&& final(self).call_frames@.last().call_type == old(
                    self,
                ).call_stack@.last().call_type
                &&& final(self).call_frames@.last().gas_provided == gas_limit
                &&& final(self).call_frames@.last().gas_used == spec_sat_sub(
                    old(self).simulated_gas_used,
                    old(self).call_stack@.last().gas_at_start,
                )
                &&& final(self).call_frames@.last().success == success
                &&& opt_bytes_view(final(self).call_frames@.last().input) == opt_bytes_view(input)
                &&& final(self).call_frames@.last().output matches Some(o) && o@ == output@
            },
            (final(self).call_stack@.len() as nat, final(self).call_frames@.len() as nat)
                == hook_transition(
                (old(self).call_stack@.len() as nat, old(self).call_frames@.len() as nat),
                HookEventKind::CallExit,
            ),
            final(self).config == old(self).config,
            final(self).simulated_gas_used == old(self).simulated_gas_used,
            final(self).simulated_gas_limit == old(self).simulated_gas_limit,
            final(self).oog_occurred == old(self).oog_occurred,
            final(self).op_counts == old(self).op_counts,
            final(self).first_divergence_location == old(self).first_divergence_location,
            final(self).oog_info == old(self).oog_info,
            final(self).gas_opcode_usage == old(self).gas_opcode_usage,
            final(self).max_gas_events == old(self).max_gas_events,
            final(self).event_logs == old(self).event_logs,
    {
        if let Some(entry) = self.call_stack.pop() {
            let gas_used = self.simulated_gas_used.saturating_sub(entry.gas_at_start);
            let call_index = self.call_frames.len();
            self.call_frames.push(
                CallFrame {
                    call_index,
                    depth: entry.depth,
                    from: caller,
                    to: Some(bytecode_address),
                    call_type: entry.call_type,
                    gas_provided: gas_limit,
                    gas_used,
                    success,
                    input,
                    output: Some(output),
                },
            );
        }
    }

    /// Observe entry into a contract-creation frame. The created address is
    /// not known yet, so the frame's contract is the zero address until the
    /// exit resolves it.
    pub fn create(&mut self, call_type: CallType)
        requires
            old(self).inv(),
        ensures
            final(self).inv(),
            final(self).call_stack@.len() == old(self).call_stack@.len() + 1,
            final(self).call_stack@.drop_last() =~= old(self).call_stack@,
            final(self).call_stack@.last().depth == old(self).call_stack@.len(),
            final(self).call_stack@.last().contract@ == zero_address_seq(),
            final(self).call_stack@.last().call_type == call_type,
            final(self).call_stack@.last().gas_at_start == old(self).simulated_gas_used,
            (final(self).call_stack@.len() as nat, final(self).call_frames@.len() as nat)
                == hook_transition(
                (old(self).call_stack@.len() as nat, old(self).call_frames@.len() as nat),
                HookEventKind::CreateEnter,
            ),
            final(self).config == old(self).config,
            final(self).simulated_gas_used == old(self).simulated_gas_used,
            final(self).simulated_gas_limit == old(self).simulated_gas_limit,
            final(self).oog_occurred == old(self).oog_occurred,
            final(self).op_counts == old(self).op_counts,
            final(self).call_frames == old(self).call_frames,
            final(self).first_divergence_location == old(self).first_divergence_location,
            final(self).oog_info == old(self).oog_info,
            final(self).gas_opcode_usage == old(self).gas_opcode_usage,
            final(self).max_gas_events == old(self).max_gas_events,
            final(self).event_logs == old(self).event_logs,
    {
        let depth = self.call_stack.len();
        let gas_at_start = self.simulated_gas_used;
        let contract = zero_address();
        self.call_stack.push(CallStackEntry { depth, contract, call_type, gas_at_start });
    }

    /// Observe exit from a contract-creation frame: close the innermost open
    /// frame and record it, resolving the created address (the zero address
    /// when creation yielded none). An exit with no matching open frame is
    /// ignored.
    pub fn create_end(
        &mut self,
        caller: Vec<u8>,
        created_address: Option<Vec<u8>>,
        gas_limit: u64,
        init_code: Vec<u8>,
        success: bool,
        output: Vec<u8>,
    )
        requires
            old(self).inv(),
        ensures
            final(self).inv(),
            old(self).call_stack@.len() == 0 ==> final(self).call_stack@ == old(self).call_stack@
                && final(self).call_frames@ == old(self).call_frames@,
            old(self).call_stack@.len() > 0 ==> {
                &&& final(self).call_stack@ =~= old(self).call_stack@.drop_last()
                &&& final(self).call_frames@.len() == old(self).call_frames@.len() + 1
                &&& final(self).call_frames@.drop_last() =~= old(self).call_frames@
                &&& final(self).call_frames@.last().call_index == old(self).call_frames@.len()
                &&& final(self).call_frames@.last().depth == old(self).call_stack@.last().depth
                &&& final(self).call_frames@.last().from@ == caller@
                &&& final(self).call_frames@.last().to matches Some(t) && t@ == (
                match created_address {
                    Some(a) => a@,
                    None => zero_address_seq(),
                })
                &&& final(self).call_frames@.last().call_type == old(
                    self,
                ).call_stack@.last().call_type
                &&& final(self).call_frames@.last().gas_provided == gas_limit
                &&& final(self).call_frames@.last().gas_used == spec_sat_sub(
                    old(self).simulated_gas_used,
                    old(self).call_stack@.last().gas_at_start,
                )
                &&& final(self).call_frames@.last().success == success
                &&& final(self).call_frames@.last().input matches Some(iv) && iv@ == init_code@
                &&& final(self).call_frames@.last().output matches Some(o) && o@ == output@
            },
            (final(self).call_stack@.len() as nat, final(self).call_frames@.len() as nat)
                == hook_transition(
                (old(self).call_stack@.len() as nat, old(self).call_frames@.len() as nat),
                HookEventKind::CreateExit,
            ),
            final(self).config == old(self).config,
            final(self).simulated_gas_used == old(self).simulated_gas_used,
            final(self).simulated_gas_limit == old(self).simulated_gas_limit,
            final(self).oog_occurred == old(self).oog_occurred,
            final(self).op_counts == old(self).op_counts,
            final(self).first_divergence_location == old(self).first_divergence_location,
            final(self).oog_info == old(self).oog_info,
            final(self).gas_opcode_usage == old(self).gas_opcode_usage,
            final(self).max_gas_events == old(self).max_gas_events,
            final(self).event_logs == old(self).event_logs,
    {
        if let Some(entry) = self.call_stack.pop() {
            let gas_used = self.simulated_gas_used.saturating_sub(entry.gas_at_start);
            let created = match created_address {
                Some(a) => a,
                None => zero_address(),
            };
            let call_index = self.call_frames.len();
            self.call_frames.push(
                CallFrame {
                    call_index,
                    depth: entry.depth,
                    from: caller,
                    to: Some(created),
                    call_type: entry.call_type,
                    gas_provided: gas_limit,
                    gas_used,
                    success,
                    input: Some(init_code),
                    output: Some(output),
                },
            );
        }
    }

    /// Observe an emitted log.
    pub fn log(&mut self, address: Vec<u8>, topics: Vec<Vec<u8>>, data: Vec<u8>)
        requires
            old(self).inv(),
        ensures
            final(self).inv(),
            final(self).event_logs@.len() == old(self).event_logs@.len() + 1,
            final(self).event_logs@.drop_last() =~= old(self).event_logs@,
            final(self).event_logs@.last().log_index == old(self).event_logs@.len(),
            final(self).event_logs@.last().address@ == address@,
            final(self).event_logs@.last().topics == topics,
            final(self).event_logs@.last().data@ == data@,
            final(self).config == old(self).config,
            final(self).simulated_gas_used == old(self).simulated_gas_used,
            final(self).simulated_gas_limit == old(self).simulated_gas_limit,
            final(self).oog_occurred == old(self).oog_occurred,
            final(self).op_counts == old(self).op_counts,
            final(self).call_stack == old(self).call_stack,
            final(self).call_frames == old(self).call_frames,
            final(self).first_divergence_location == old(self).first_divergence_location,
            final(self).oog_info == old(self).oog_info,
            final(self).gas_opcode_usage == old(self).gas_opcode_usage,
            final(self).max_gas_events == old(self).max_gas_events,
            (final(self).call_stack@.len() as nat, final(self).call_frames@.len() as nat)
                == hook_transition(
                (old(self).call_stack@.len() as nat, old(self).call_frames@.len() as nat),
                HookEventKind::LogEmitted,
            ),
    {
        let log_index = self.event_logs.len();
        self.event_logs.push(EventLogEntry { log_index, address, topics, data });
    }
}

} // verus!

