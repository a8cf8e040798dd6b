//! Types for representing execution divergences.

use vstd::prelude::*;
use vstd::string::StringExecFns;

verus! {

/// A detected divergence between normal and experimental execution.
#[derive(Clone, Debug)]
pub struct Divergence {
    /// Block number
    pub block_number: u64,
    /// Transaction index within the block
    pub tx_index: u64,
    /// Transaction hash (32 bytes)
    pub tx_hash: Vec<u8>,
    /// Block timestamp
    pub timestamp: u64,
    /// Types of divergence detected
    pub divergence_types: Vec<DivergenceType>,
    /// Gas analysis
    pub gas_analysis: GasAnalysis,
    /// Operation counts from normal execution
    pub normal_ops: OperationCounts,
    /// Operation counts from experimental execution
    pub experimental_ops: OperationCounts,
    /// Location where divergence first occurred
    pub divergence_location: Option<DivergenceLocation>,
    /// Out-of-gas information (if applicable)
    pub oog_info: Option<OutOfGasInfo>,
    /// Call trees (only if detailed tracing is enabled)
    pub call_trees: Option<CallTrees>,
    /// Event logs (only if detailed tracing is enabled)
    pub event_logs: Option<EventLogs>,
}

/// Type of divergence detected.
#[derive(Clone, Copy, Debug, PartialEq, Eq, Hash, Structural)]
pub enum DivergenceType {
    /// Post-transaction state root differs
    StateRoot,
    /// Execution trace differs (different opcodes executed)
    ExecutionTrace,
    /// Success/revert status differs
    Status,
    /// Event logs differ
    EventLogs,
    /// Call tree differs (different external calls made)
    CallTree,
    /// Gas usage pattern significantly differs (structural difference)
    GasPattern,
}

impl DivergenceType {
    /// The stable textual name of this tag, as stored in the database.
    pub open spec fn spec_name(self) -> Seq<char> {
        match self {
            DivergenceType::StateRoot => "state_root"@,
            DivergenceType::ExecutionTrace => "execution_trace"@,
            DivergenceType::Status => "status"@,
            DivergenceType::EventLogs => "event_logs"@,
            DivergenceType::CallTree => "call_tree"@,
            DivergenceType::GasPattern => "gas_pattern"@,
        }
    }

    /// Textual name of the tag.
    pub fn as_str(&self) -> (r: &'static str)
        ensures
            r@ == self.spec_name(),
    {
        match self {
            DivergenceType::StateRoot => "state_root",
            DivergenceType::ExecutionTrace => "execution_trace",
            DivergenceType::Status => "status",
            DivergenceType::EventLogs => "event_logs",
            DivergenceType::CallTree => "call_tree",
            DivergenceType::GasPattern => "gas_pattern",
        }
    }
}

/// The comma-delimited text form of a tag list.
pub open spec fn spec_types_joined(ts: Seq<DivergenceType>) -> Seq<char>
    decreases ts.len(),
{
    if ts.len() == 0 {
        Seq::empty()
    } else if ts.len() == 1 {
        ts[0].spec_name()
    } else {
        spec_types_joined(ts.drop_last()) + ","@ + ts.last().spec_name()
    }
}

/// Join tag names with commas, as the store's delimited type column expects.
pub fn divergence_types_string(types: &Vec<DivergenceType>) -> (r: String)
    ensures
        r@ == spec_types_joined(types@),
{
    let mut s = String::new();
    let mut i: usize = 0;
    while i < types.len()
        invariant
            i <= types.len(),
            s@ == spec_types_joined(types@.take(i as int)),
        decreases types.len() - i,
    {
        if i > 0 {
            s.append(",");
        }
        s.append(types[i].as_str());
        proof {
            let t = types@.take(i + 1 as int);
            assert(t.drop_last() =~= types@.take(i as int));
            assert(t.last() == types@[i as int]);
            if i == 0 {
                assert(Seq::<char>::empty() + types@[0].spec_name() =~= types@[0].spec_name());
            }
        }
        i += 1;
    }
    proof {
        assert(types@.take(types@.len() as int) =~= types@);
    }
    s
}

/// Fixed-point scale for gas efficiency ratios: one million parts stand for 1.0.
pub open spec fn ratio_one_ppm() -> int {
    1_000_000
}

/// Gas efficiency ratio in parts per million, before clamping:
/// `(experimental_gas / gas_multiplier) / normal_gas` under integer division,
/// and exactly 1.0 when `normal_gas == 0` (degenerate denominator).
pub open spec fn spec_ratio_ppm(normal_gas: u64, experimental_gas: u64, gas_multiplier: u64) -> int {
    if normal_gas == 0 {
        ratio_one_ppm()
    } else {
        (experimental_gas * ratio_one_ppm()) / (gas_multiplier * normal_gas)
    }
}

/// The ratio clamped to the `u64` range.
pub open spec fn spec_calculate_ratio(
    normal_gas: u64,
    experimental_gas: u64,
    gas_multiplier: u64,
) -> u64 {
    let q = spec_ratio_ppm(normal_gas, experimental_gas, gas_multiplier);
    if q > u64::MAX { u64::MAX } else { q as u64 }
}

/// Gas usage analysis.
#[derive(Clone, Copy, Debug, PartialEq, Eq, Structural)]
pub struct GasAnalysis {
    /// Gas consumed in normal execution
    pub normal_gas_used: u64,
    /// Gas consumed in experimental execution
    pub experimental_gas_used: u64,
    /// Gas efficiency ratio in parts per million:
    /// `(experimental_gas / multiplier) / normal_gas`, scaled by one million.
    /// Values near one million indicate the same execution path, just more
    /// expensive; values away from it indicate a different path taken.
    pub gas_efficiency_ratio: u64,
}

impl GasAnalysis {
    /// Calculate the gas efficiency ratio in parts per million.
    pub fn calculate_ratio(normal_gas: u64, experimental_gas: u64, gas_multiplier: u64) -> (r: u64)
        requires
            gas_multiplier > 0,
        ensures
            r == spec_calculate_ratio(normal_gas, experimental_gas, gas_multiplier),
    {
        if normal_gas == 0 {
            return 1_000_000;
        }
        let num: u128 = (experimental_gas as u128) * 1_000_000u128;
        proof {
            assert((gas_multiplier as int) * (normal_gas as int) <= u128::MAX
                && (gas_multiplier as int) * (normal_gas as int) > 0) by (nonlinear_arith)
                requires
                    0 < gas_multiplier <= u64::MAX,
                    0 < normal_gas <= u64::MAX,
            ;
        }
        let den: u128 = (gas_multiplier as u128) * (normal_gas as u128);
        let q: u128 = num / den;
        if q > u64::MAX as u128 {
            u64::MAX
        } else {
            q as u64
        }
    }

    /// Whether the gas pattern indicates a structural divergence: the ratio
    /// departs from 1.0 by more than the 5% tolerance.
    pub fn is_structural_divergence(&self) -> (r: bool)
        ensures
            r == (self.gas_efficiency_ratio > 1_050_000 || self.gas_efficiency_ratio < 950_000),
    {
        self.gas_efficiency_ratio > 1_050_000 || self.gas_efficiency_ratio < 950_000
    }
}

/// When the experimental gas is exactly the multiplier times the normal gas,
/// the ratio is exactly 1.0.
pub proof fn lemma_ratio_exact_multiple(normal_gas: u64, experimental_gas: u64, gas_multiplier: u64)
    requires
        normal_gas > 0,
        gas_multiplier > 0,
        experimental_gas == gas_multiplier * normal_gas,
    ensures
        spec_calculate_ratio(normal_gas, experimental_gas, gas_multiplier) == 1_000_000,
{
    let d = (gas_multiplier as int) * (normal_gas as int);
    assert(d > 0) by (nonlinear_arith)
        requires
            gas_multiplier > 0,
            normal_gas > 0,
            d == (gas_multiplier as int) * (normal_gas as int),
    ;
    assert((experimental_gas as int) * ratio_one_ppm() == d * 1_000_000) by (nonlinear_arith)
        requires
            experimental_gas == gas_multiplier * normal_gas,
            d == (gas_multiplier as int) * (normal_gas as int),
    ;
    vstd::arithmetic::div_mod::lemma_div_multiples_vanish(1_000_000, d);
}

/// When the normal execution used no gas at all, the ratio is 1.0 regardless
/// of the experimental gas.
pub proof fn lemma_ratio_degenerate_denominator(experimental_gas: u64, gas_multiplier: u64)
    ensures
        spec_calculate_ratio(0, experimental_gas, gas_multiplier) == 1_000_000,
{
}

/// Counts of various operations executed.
#[derive(Clone, Copy, Debug, PartialEq, Eq, Structural)]
pub struct OperationCounts {
    /// Number of SLOAD operations
    pub sload_count: u64,
    /// Number of SSTORE operations
    pub sstore_count: u64,
    /// Number of CALL/DELEGATECALL/STATICCALL operations
    pub call_count: u64,
    /// Number of LOG operations
    pub log_count: u64,
    /// Total opcodes executed
    pub total_ops: u64,
    /// Peak memory words allocated
    pub memory_words_allocated: u64,
    /// Number of CREATE/CREATE2 operations
    pub create_count: u64,
}

impl Default for OperationCounts {
    /// All counts start at zero.
    fn default() -> (r: Self)
        ensures
            r == OperationCounts::spec_zero(),
    {
        OperationCounts {
            sload_count: 0,
            sstore_count: 0,
            call_count: 0,
            log_count: 0,
            total_ops: 0,
            memory_words_allocated: 0,
            create_count: 0,
        }
    }
}

impl OperationCounts {
    /// The all-zero tally.
    pub open spec fn spec_zero() -> OperationCounts {
        OperationCounts {
            sload_count: 0,
            sstore_count: 0,
            call_count: 0,
            log_count: 0,
            total_ops: 0,
            memory_words_allocated: 0,
            create_count: 0,
        }
    }

    /// Each individual tally is bounded by the total number of operations.
    pub open spec fn wf(self) -> bool {
        self.sload_count <= self.total_ops
        && self.sstore_count <= self.total_ops
        && self.call_count <= self.total_ops
        && self.log_count <= self.total_ops
        && self.create_count <= self.total_ops
    }
}

/// Location where divergence first occurred.
#[derive(Clone, Debug)]
pub struct DivergenceLocation {
    /// Contract address (20 bytes) where divergence occurred
    pub contract: Vec<u8>,
    /// Function selector (first 4 bytes of calldata)
    pub function_selector: Option<Vec<u8>>,
    /// Program counter at divergence
    pub pc: usize,
    /// Call depth when divergence occurred
    pub call_depth: usize,
    /// Opcode at divergence point
    pub opcode: u8,
    /// Opcode name (for readability)
    pub opcode_name: String,
}

/// Information about out-of-gas occurrence in experimental execution.
#[derive(Clone, Debug)]
pub struct OutOfGasInfo {
    /// Opcode that caused OOG
    pub opcode: u8,
    /// Opcode name
    pub opcode_name: String,
    /// Program counter where OOG occurred
    pub pc: usize,
    /// Contract address (20 bytes)
    pub contract: Vec<u8>,
    /// Call depth
    pub call_depth: usize,
    /// Gas remaining when OOG occurred
    pub gas_remaining: u64,
    /// Detected pattern (heuristic)
    pub pattern: OogPattern,
}

/// Pattern that caused out-of-gas.
#[derive(Clone, Copy, Debug, PartialEq, Eq, Structural)]
pub enum OogPattern {
    /// Loop iteration
    Loop,
    /// Memory expansion
    MemoryExpansion,
    /// Chain of external calls
    CallChain,
    /// Heavy storage operations
    StorageHeavy,
    /// Unknown/other pattern
    Unknown,
}

impl OogPattern {
    /// The stable textual name of this pattern.
    pub open spec fn spec_name(self) -> Seq<char> {
        match self {
            OogPattern::Loop => "loop"@,
            OogPattern::MemoryExpansion => "memory_expansion"@,
            OogPattern::CallChain => "call_chain"@,
            OogPattern::StorageHeavy => "storage_heavy"@,
            OogPattern::Unknown => "unknown"@,
        }
    }

    /// Textual name of the pattern.
    pub fn as_str(&self) -> (r: &'static str)
        ensures
            r@ == self.spec_name(),
    {
        match self {
            OogPattern::Loop => "loop",
            OogPattern::MemoryExpansion => "memory_expansion",
            OogPattern::CallChain => "call_chain",
            OogPattern::StorageHeavy => "storage_heavy",
            OogPattern::Unknown => "unknown",
        }
    }
}

/// Call trees from both executions.
#[derive(Clone, Debug)]
pub struct CallTrees {
    /// Call tree from normal execution
    pub normal: Vec<CallFrame>,
    /// Call tree from experimental execution
    pub experimental: Vec<CallFrame>,
}

/// A single call frame in the call tree.
#[derive(Clone, Debug)]
pub struct CallFrame {
    /// Index in the call tree
    pub call_index: usize,
    /// Call depth
    pub depth: usize,
    /// Caller address (20 bytes)
    pub from: Vec<u8>,
    /// Callee address (absent for a creation whose address is not yet known)
    pub to: Option<Vec<u8>>,
    /// Type of call
    pub call_type: CallType,
    /// Gas provided to the call
    pub gas_provided: u64,
    /// Gas used by the call
    pub gas_used: u64,
    /// Whether the call succeeded
    pub success: bool,
    /// Input data
    pub input: Option<Vec<u8>>,
    /// Output/return data
    pub output: Option<Vec<u8>>,
}

/// Type of call.
#[derive(Clone, Copy, Debug, PartialEq, Eq, Structural)]
pub enum CallType {
    /// Regular call
    Call,
    /// Delegate call
    DelegateCall,
    /// Static call
    StaticCall,
    /// Call code
    CallCode,
    /// Contract creation
    Create,
    /// Contract creation with CREATE2
    Create2,
}

impl CallType {
    /// The stable textual name of this call type.
    pub open spec fn spec_name(self) -> Seq<char> {
        match self {
            CallType::Call => "CALL"@,
            CallType::DelegateCall => "DELEGATECALL"@,
            CallType::StaticCall => "STATICCALL"@,
            CallType::CallCode => "CALLCODE"@,
            CallType::Create => "CREATE"@,
            CallType::Create2 => "CREATE2"@,
        }
    }

    /// Textual name of the call type.
    pub fn as_str(&self) -> (r: &'static str)
        ensures
            r@ == self.spec_name(),
    {
        match self {
            CallType::Call => "CALL",
            CallType::DelegateCall => "DELEGATECALL",
            CallType::StaticCall => "STATICCALL",
            CallType::CallCode => "CALLCODE",
            CallType::Create => "CREATE",
            CallType::Create2 => "CREATE2",
        }
    }
}

/// Event logs from both executions.
#[derive(Clone, Debug)]
pub struct EventLogs {
    /// Logs from normal execution
    pub normal: Vec<EventLog>,
    /// Logs from experimental execution
    pub experimental: Vec<EventLog>,
}

/// A single event log.
#[derive(Clone, Debug)]
pub struct EventLog {
    /// Log index
    pub log_index: usize,
    /// Contract address (20 bytes) that emitted the log
    pub address: Vec<u8>,
    /// Topics (indexed parameters), at most four 32-byte words
    pub topics: Vec<Vec<u8>>,
    /// Data (non-indexed parameters)
    pub data: Vec<u8>,
}

} // verus!
