//! Metrics for research mode.
//!
//! The metrics registry is explicit process-scoped state: callers hold a
//! handle and pass it in, registration is idempotent, and every counter
//! saturates at the numeric ceiling instead of wrapping.

use vstd::prelude::*;

use crate::divergence::{DivergenceType, OogPattern};
use crate::inspector::spec_sat_add;

verus! {

/// A value raised by a count, saturating at the numeric ceiling.
pub open spec fn spec_sat_add_nat(a: u64, k: nat) -> u64 {
    if a + k > u64::MAX {
        u64::MAX
    } else {
        (a + k) as u64
    }
}

/// How many of the listed tags are the given tag.
pub open spec fn count_type(ts: Seq<DivergenceType>, t: DivergenceType) -> nat
    decreases ts.len(),
{
    if ts.len() == 0 {
        0
    } else {
        count_type(ts.drop_last(), t) + if ts.last() == t {
            1nat
        } else {
            0nat
        }
    }
}

/// The research metrics: counters for blocks, transactions, divergences by
/// type and out-of-gas events by pattern, and the recorded observations of
/// the gas efficiency ratio and of block and detection durations.
#[derive(Clone, Debug)]
pub struct MetricsRegistry {
    /// Whether the metric descriptions have been registered
    pub registered: bool,
    /// Total number of blocks processed in research mode
    pub blocks_processed_total: u64,
    /// Total number of transactions processed in research mode
    pub transactions_processed_total: u64,
    /// Total number of divergences detected
    pub divergences_total: u64,
    /// Divergences tagged with a state-root difference
    pub divergences_state_root: u64,
    /// Divergences tagged with an execution-trace difference
    pub divergences_execution_trace: u64,
    /// Divergences tagged with a status difference
    pub divergences_status: u64,
    /// Divergences tagged with an event-log difference
    pub divergences_event_logs: u64,
    /// Divergences tagged with a call-tree difference
    pub divergences_call_tree: u64,
    /// Divergences tagged with a gas-pattern difference
    pub divergences_gas_pattern: u64,
    /// Total number of out-of-gas events in experimental execution
    pub oog_total: u64,
    /// Out-of-gas events explained as a loop
    pub oog_loop: u64,
    /// Out-of-gas events explained as memory expansion
    pub oog_memory_expansion: u64,
    /// Out-of-gas events explained as a call chain
    pub oog_call_chain: u64,
    /// Out-of-gas events explained as heavy storage use
    pub oog_storage_heavy: u64,
    /// Out-of-gas events with no recognized explanation
    pub oog_unknown: u64,
    /// Observed gas efficiency ratios, in parts per million
    pub gas_efficiency_ratio_observations: Vec<u64>,
    /// Observed block execution durations, in milliseconds
    pub block_execution_millis: Vec<u64>,
    /// Observed divergence detection durations, in milliseconds
    pub divergence_detection_millis: Vec<u64>,
}

impl MetricsRegistry {
    /// The counter kept for a divergence tag.
    pub open spec fn type_counter(self, t: DivergenceType) -> u64 {
        match t {
            DivergenceType::StateRoot => self.divergences_state_root,
            DivergenceType::ExecutionTrace => self.divergences_execution_trace,
            DivergenceType::Status => self.divergences_status,
            DivergenceType::EventLogs => self.divergences_event_logs,
            DivergenceType::CallTree => self.divergences_call_tree,
            DivergenceType::GasPattern => self.divergences_gas_pattern,
        }
    }

    /// The counter kept for an out-of-gas pattern.
    pub open spec fn pattern_counter(self, p: OogPattern) -> u64 {
        match p {
            OogPattern::Loop => self.oog_loop,
            OogPattern::MemoryExpansion => self.oog_memory_expansion,
            OogPattern::CallChain => self.oog_call_chain,
            OogPattern::StorageHeavy => self.oog_storage_heavy,
            OogPattern::Unknown => self.oog_unknown,
        }
    }

    /// A registry with nothing recorded.
    pub fn new() -> (r: Self)
        ensures
            r.registered == false,
            r.blocks_processed_total == 0,
            r.transactions_processed_total == 0,
            r.divergences_total == 0,
            forall|t: DivergenceType| #[trigger] r.type_counter(t) == 0,
            r.oog_total == 0,
            forall|p: OogPattern| #[trigger] r.pattern_counter(p) == 0,
            r.gas_efficiency_ratio_observations@.len() == 0,
            r.block_execution_millis@.len() == 0,
            r.divergence_detection_millis@.len() == 0,
    {
        MetricsRegistry {
            registered: false,
            blocks_processed_total: 0,
            transactions_processed_total: 0,
            divergences_total: 0,
            divergences_state_root: 0,
            divergences_execution_trace: 0,
            divergences_status: 0,
            divergences_event_logs: 0,
            divergences_call_tree: 0,
            divergences_gas_pattern: 0,
            oog_total: 0,
            oog_loop: 0,
            oog_memory_expansion: 0,
            oog_call_chain: 0,
            oog_storage_heavy: 0,
            oog_unknown: 0,
            gas_efficiency_ratio_observations: Vec::new(),
            block_execution_millis: Vec::new(),
            divergence_detection_millis: Vec::new(),
        }
    }
}

/// Register all research metrics. Registration is idempotent and touches no
/// counter.
pub fn register_metrics(registry: &mut MetricsRegistry)
    ensures
        final(registry).registered == true,
        *final(registry) == (MetricsRegistry { registered: true, ..*old(registry) }),
{
    registry.registered = true;
}

/// Record a block being processed: one more block, its transactions, and the
/// observed duration.
pub fn record_block_processed(
    registry: &mut MetricsRegistry,
    _block_number: u64,
    tx_count: usize,
    duration_millis: u64,
)
    ensures
        final(registry).blocks_processed_total == spec_sat_add(
            old(registry).blocks_processed_total,
            1,
        ),
        final(registry).transactions_processed_total == spec_sat_add(
            old(registry).transactions_processed_total,
            tx_count as u64,
        ),
        final(registry).block_execution_millis@ == old(registry).block_execution_millis@.push(
            duration_millis,
        ),
        *final(registry) == (MetricsRegistry {
            blocks_processed_total: final(registry).blocks_processed_total,
            transactions_processed_total: final(registry).transactions_processed_total,
            block_execution_millis: final(registry).block_execution_millis,
            ..*old(registry)
        }),
{
    registry.blocks_processed_total = registry.blocks_processed_total.saturating_add(1);
    registry.transactions_processed_total = registry.transactions_processed_total.saturating_add(
        tx_count as u64,
    );
    registry.block_execution_millis.push(duration_millis);
}

/// Raise the counter kept for one divergence tag.
fn bump_type_counter(registry: &mut MetricsRegistry, t: DivergenceType)
    ensures
        final(registry).type_counter(t) == spec_sat_add(old(registry).type_counter(t), 1),
        forall|u: DivergenceType|
            u != t ==> #[trigger] final(registry).type_counter(u) == old(registry).type_counter(u),
        final(registry).registered == old(registry).registered,
        final(registry).blocks_processed_total == old(registry).blocks_processed_total,
        final(registry).transactions_processed_total == old(
            registry,
        ).transactions_processed_total,
        final(registry).divergences_total == old(registry).divergences_total,
        final(registry).oog_total == old(registry).oog_total,
        forall|p: OogPattern|
            #[trigger] final(registry).pattern_counter(p) == old(registry).pattern_counter(p),
        final(registry).gas_efficiency_ratio_observations == old(
            registry,
        ).gas_efficiency_ratio_observations,
        final(registry).block_execution_millis == old(registry).block_execution_millis,
        final(registry).divergence_detection_millis == old(registry).divergence_detection_millis,
{
    match t {
        DivergenceType::StateRoot => {
            registry.divergences_state_root = registry.divergences_state_root.saturating_add(1);
        },
        DivergenceType::ExecutionTrace => {
            registry.divergences_execution_trace =
                registry.divergences_execution_trace.saturating_add(1);
        },
        DivergenceType::Status => {
            registry.divergences_status = registry.divergences_status.saturating_add(1);
        },
        DivergenceType::EventLogs => {
            registry.divergences_event_logs = registry.divergences_event_logs.saturating_add(1);
        },
        DivergenceType::CallTree => {
            registry.divergences_call_tree = registry.divergences_call_tree.saturating_add(1);
        },
        DivergenceType::GasPattern => {
            registry.divergences_gas_pattern = registry.divergences_gas_pattern.saturating_add(1);
        },
    }
}

/// Record a divergence being detected: one more divergence, one more of each
/// of its tags, and the observed gas efficiency ratio.
pub fn record_divergence(
    registry: &mut MetricsRegistry,
    divergence_types: &Vec<DivergenceType>,
    gas_efficiency_ratio: u64,
)
    ensures
        final(registry).divergences_total == spec_sat_add(old(registry).divergences_total, 1),
        forall|t: DivergenceType|
            #[trigger] final(registry).type_counter(t) == spec_sat_add_nat(
                old(registry).type_counter(t),
                count_type(divergence_types@, t),
            ),
        final(registry).gas_efficiency_ratio_observations@ == old(
            registry,
        ).gas_efficiency_ratio_observations@.push(gas_efficiency_ratio),
        final(registry).registered == old(registry).registered,
        final(registry).blocks_processed_total == old(registry).blocks_processed_total,
        final(registry).transactions_processed_total == old(
            registry,
        ).transactions_processed_total,
        final(registry).oog_total == old(registry).oog_total,
        forall|p: OogPattern|
            #[trigger] final(registry).pattern_counter(p) == old(registry).pattern_counter(p),
        final(registry).block_execution_millis == old(registry).block_execution_millis,
        final(registry).divergence_detection_millis == old(registry).divergence_detection_millis,
{
    registry.divergences_total = registry.divergences_total.saturating_add(1);
    registry.gas_efficiency_ratio_observations.push(gas_efficiency_ratio);
    let mut i: usize = 0;
    while i < divergence_types.len()
        invariant
            i <= divergence_types@.len(),
            forall|t: DivergenceType|
                #[trigger] registry.type_counter(t) == spec_sat_add_nat(
                    old(registry).type_counter(t),
                    count_type(divergence_types@.take(i as int), t),
                ),
            registry.registered == old(registry).registered,
            registry.blocks_processed_total == old(registry).blocks_processed_total,
            registry.transactions_processed_total == old(registry).transactions_processed_total,
            registry.divergences_total == spec_sat_add(old(registry).divergences_total, 1),
            registry.oog_total == old(registry).oog_total,
            forall|p: OogPattern|
                #[trigger] registry.pattern_counter(p) == old(registry).pattern_counter(p),
            registry.gas_efficiency_ratio_observations@ == old(
                registry,
            ).gas_efficiency_ratio_observations@.push(gas_efficiency_ratio),
            registry.block_execution_millis == old(registry).block_execution_millis,
            registry.divergence_detection_millis == old(registry).divergence_detection_millis,
        decreases divergence_types@.len() - i,
    {
        proof {
            assert(divergence_types@.take(i + 1 as int).drop_last() =~= divergence_types@.take(
                i as int,
            ));
        }
        bump_type_counter(registry, divergence_types[i]);
        i += 1;
    }
    proof {
        assert(divergence_types@.take(divergence_types@.len() as int) =~= divergence_types@);
    }
}

/// Record an out-of-gas event: one more in total and one more of its pattern.
pub fn record_oog(registry: &mut MetricsRegistry, pattern: OogPattern)
    ensures
        final(registry).oog_total == spec_sat_add(old(registry).oog_total, 1),
        final(registry).pattern_counter(pattern) == spec_sat_add(
            old(registry).pattern_counter(pattern),
            1,
        ),
        forall|p: OogPattern|
            p != pattern ==> #[trigger] final(registry).pattern_counter(p) == old(
                registry,
            ).pattern_counter(p),
        final(registry).registered == old(registry).registered,
        final(registry).blocks_processed_total == old(registry).blocks_processed_total,
        final(registry).transactions_processed_total == old(
            registry,
        ).transactions_processed_total,
        final(registry).divergences_total == old(registry).divergences_total,
        forall|t: DivergenceType|
            #[trigger] final(registry).type_counter(t) == old(registry).type_counter(t),
        final(registry).gas_efficiency_ratio_observations == old(
            registry,
        ).gas_efficiency_ratio_observations,
        final(registry).block_execution_millis == old(registry).block_execution_millis,
        final(registry).divergence_detection_millis == old(registry).divergence_detection_millis,
{
    registry.oog_total = registry.oog_total.saturating_add(1);
    match pattern {
        OogPattern::Loop => {
            registry.oog_loop = registry.oog_loop.saturating_add(1);
        },
        OogPattern::MemoryExpansion => {
            registry.oog_memory_expansion = registry.oog_memory_expansion.saturating_add(1);
        },
        OogPattern::CallChain => {
            registry.oog_call_chain = registry.oog_call_chain.saturating_add(1);
        },
        OogPattern::StorageHeavy => {
            registry.oog_storage_heavy = registry.oog_storage_heavy.saturating_add(1);
        },
        OogPattern::Unknown => {
            registry.oog_unknown = registry.oog_unknown.saturating_add(1);
        },
    }
}

/// Record divergence detection time.
pub fn record_divergence_detection_time(registry: &mut MetricsRegistry, duration_millis: u64)
    ensures
        final(registry).divergence_detection_millis@ == old(
            registry,
        ).divergence_detection_millis@.push(duration_millis),
        *final(registry) == (MetricsRegistry {
            divergence_detection_millis: final(registry).divergence_detection_millis,
            ..*old(registry)
        }),
{
    registry.divergence_detection_millis.push(duration_millis);
}

} // verus!
