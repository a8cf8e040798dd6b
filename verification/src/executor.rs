//! Research orchestration: dual-execution analysis and divergence recording.
//!
//! The execution engine itself is an external collaborator; it hands this
//! module the per-transaction outcomes and the two inspectors' captured
//! state, and the orchestrator classifies, records and meters them.

use vstd::prelude::*;
use vstd::string::StringExecFns;

use crate::classifier::{
    build_critical_divergence, build_divergence, compare_executions, loc_opt_matches,
    oog_opt_matches, spec_expected_tags, ExecutionOutcome,
};
use crate::config::{ConfigError, ResearchConfig};
use crate::database::{DatabaseError, DivergenceDatabase};
use crate::divergence::{spec_calculate_ratio, Divergence, DivergenceType, GasAnalysis, OogPattern};
use crate::inspector::{spec_has_loop, spec_sat_add, GasResearchInspector};
use crate::metrics::{
    count_type, record_divergence as meter_divergence, record_oog as meter_oog, register_metrics,
    spec_sat_add_nat, MetricsRegistry,
};
use crate::tracking_inspector::TrackingInspector;

verus! {

/// Errors that can occur in the research executor.
#[derive(Clone, Debug)]
pub enum ResearchError {
    /// The execution engine failed to run a transaction.
    Execution(String),
    /// The divergence store failed.
    Database(DatabaseError),
    /// The configuration is invalid.
    Config(ConfigError),
    /// Research mode is not enabled for this block.
    NotEnabled(u64),
}

impl ResearchError {
    /// A human-readable description of the error.
    pub fn message(&self) -> (r: String)
        ensures
            self matches ResearchError::Execution(m) ==> r@ == "Execution error: "@ + m@,
            self matches ResearchError::NotEnabled(_) ==> r@
                == "Research mode not enabled for this block"@,
    {
        match self {
            ResearchError::Execution(m) => String::from_str("Execution error: ").concat(
                m.as_str(),
            ),
            ResearchError::Database(e) => String::from_str("Database error: ").concat(
                e.message().as_str(),
            ),
            ResearchError::Config(e) => String::from_str("Configuration error: ").concat(
                e.message().as_str(),
            ),
            ResearchError::NotEnabled(_) => String::from_str(
                "Research mode not enabled for this block",
            ),
        }
    }
}

/// Statistics from research execution.
#[derive(Clone, Copy, Debug, PartialEq, Eq, Structural)]
pub struct ResearchStats {
    /// Blocks processed so far
    pub blocks_processed: u64,
    /// Divergences found so far
    pub divergences_found: u64,
}

/// What one transaction's authoritative run reported: its hash, its receipt
/// status, and its cumulative gas.
#[derive(Clone, Debug)]
pub struct TxRecord {
    /// Transaction hash (32 bytes)
    pub hash: Vec<u8>,
    /// Whether the receipt reports success
    pub success: bool,
    /// Cumulative gas used up to and including this transaction
    pub cumulative_gas_used: u64,
}

/// The tags owed by the simulation-only analysis of one transaction: a
/// simulated out-of-gas is a status divergence (and an execution-trace one
/// when the authoritative run succeeded), a repeating gas-check pattern and
/// a structurally different gas ratio are each a gas-pattern divergence.
pub open spec fn spec_exec_tags(
    oog_occurred: bool,
    normal_success: bool,
    has_loop: bool,
    ratio: u64,
) -> Seq<DivergenceType> {
    (if oog_occurred {
        seq![DivergenceType::Status] + (if normal_success {
            seq![DivergenceType::ExecutionTrace]
        } else {
            Seq::empty()
        })
    } else {
        Seq::empty()
    }) + (if has_loop {
        seq![DivergenceType::GasPattern]
    } else {
        Seq::empty()
    }) + (if ratio > 1_050_000 || ratio < 950_000 {
        seq![DivergenceType::GasPattern]
    } else {
        Seq::empty()
    })
}

/// Whether a record produced by the simulation-only analysis faithfully
/// reports some transaction of the block.
pub open spec fn exec_record_matches(
    d: Divergence,
    insp: GasResearchInspector,
    config: ResearchConfig,
    block_number: u64,
    timestamp: u64,
    txs: Seq<TxRecord>,
) -> bool {
    exists|j: int|
        #![trigger txs[j]]
        0 <= j < txs.len() && {
            let ratio = spec_calculate_ratio(
                txs[j].cumulative_gas_used,
                insp.simulated_gas_used,
                config.gas_multiplier,
            );
            &&& d.tx_index == j
            &&& d.tx_hash@ == txs[j].hash@
            &&& d.block_number == block_number
            &&& d.timestamp == timestamp
            &&& d.gas_analysis.normal_gas_used == txs[j].cumulative_gas_used
            &&& d.gas_analysis.experimental_gas_used == insp.simulated_gas_used
            &&& d.gas_analysis.gas_efficiency_ratio == ratio
            &&& d.divergence_types@ == spec_exec_tags(
                insp.oog_occurred,
                txs[j].success,
                spec_has_loop(insp.gas_opcode_usage@),
                ratio,
            )
            &&& d.divergence_types@.len() > 0 || insp.oog_occurred
            &&& d.normal_ops == insp.op_counts
            &&& d.experimental_ops == insp.op_counts
            &&& loc_opt_matches(d.divergence_location, insp.first_divergence_location)
            &&& oog_opt_matches(d.oog_info, insp.oog_info)
            &&& d.call_trees is None
            &&& d.event_logs is None
        }
}

/// Whether the simulation-only analysis owes a record for a transaction:
/// some tag accrues, or the simulator flagged a simulated out-of-gas.
pub open spec fn spec_tx_qualifies(
    insp: GasResearchInspector,
    config: ResearchConfig,
    tx: TxRecord,
) -> bool {
    spec_exec_tags(
        insp.oog_occurred,
        tx.success,
        spec_has_loop(insp.gas_opcode_usage@),
        spec_calculate_ratio(tx.cumulative_gas_used, insp.simulated_gas_used, config.gas_multiplier),
    ).len() > 0 || insp.oog_occurred
}

/// The indices of the transactions that owe a record, in order.
pub open spec fn spec_qualifying_indices(
    txs: Seq<TxRecord>,
    insp: GasResearchInspector,
    config: ResearchConfig,
) -> Seq<int>
    decreases txs.len(),
{
    if txs.len() == 0 {
        Seq::empty()
    } else {
        let prev = spec_qualifying_indices(txs.drop_last(), insp, config);
        if spec_tx_qualifies(insp, config, txs.last()) {
            prev.push(txs.len() - 1)
        } else {
            prev
        }
    }
}

/// A chain segment notification from the block-ingestion stream.
#[derive(Clone, Copy, Debug, PartialEq, Eq, Structural)]
pub enum ChainEvent {
    /// A chain segment was committed.
    Committed,
    /// The chain was reorganized onto a new segment.
    Reorged,
    /// A chain segment was reverted.
    Reverted,
}

/// What the analyzer does with a chain segment notification.
#[derive(Clone, Copy, Debug, PartialEq, Eq, Structural)]
pub enum ChainAction {
    /// Analyze each block of the new segment at or above the start height,
    /// then acknowledge the segment's tip.
    AnalyzeNewBlocks,
    /// Acknowledge only: removal of divergences recorded for now-orphaned
    /// blocks is deliberately left undecided.
    AcknowledgeOnly,
}

/// Decide what a chain notification asks for: committed and reorganized
/// segments have their new blocks analyzed; reverted segments are only
/// acknowledged.
pub fn plan_chain_event(event: ChainEvent) -> (r: ChainAction)
    ensures
        r == match event {
            ChainEvent::Committed | ChainEvent::Reorged => ChainAction::AnalyzeNewBlocks,
            ChainEvent::Reverted => ChainAction::AcknowledgeOnly,
        },
{
    match event {
        ChainEvent::Committed | ChainEvent::Reorged => ChainAction::AnalyzeNewBlocks,
        ChainEvent::Reverted => ChainAction::AcknowledgeOnly,
    }
}

/// How many of the records' tags, over a whole record list, are the given
/// tag.
pub open spec fn records_type_count(rs: Seq<Divergence>, t: DivergenceType) -> nat
    decreases rs.len(),
{
    if rs.len() == 0 {
        0
    } else {
        records_type_count(rs.drop_last(), t) + count_type(rs.last().divergence_types@, t)
    }
}

/// The gas efficiency ratios of a record list, in order.
pub open spec fn records_ratio_observations(rs: Seq<Divergence>) -> Seq<u64> {
    rs.map_values(|d: Divergence| d.gas_analysis.gas_efficiency_ratio)
}

/// Executor wrapper state for execution analysis and divergence detection.
///
/// The engine that actually runs blocks is external; this holds the research
/// configuration, the store, the metrics and the running statistics.
#[derive(Debug)]
pub struct ResearchExecutor {
    /// Research configuration
    pub config: ResearchConfig,
    /// Divergence database, absent in metrics-only mode
    pub divergence_db: Option<DivergenceDatabase>,
    /// Metrics registry
    pub metrics: MetricsRegistry,
    /// Blocks processed so far
    pub blocks_processed: u64,
    /// Divergences found so far
    pub divergences_found: u64,
}

impl ResearchExecutor {
    /// Create a new research executor: the configuration is validated and
    /// the metrics are registered. Fails exactly when the configuration is
    /// invalid.
    pub fn new(config: ResearchConfig, divergence_db: Option<DivergenceDatabase>) -> (r: Result<
        ResearchExecutor,
        ResearchError,
    >)
        ensures
            r is Ok <==> config.spec_valid(),
            !config.spec_valid() ==> r matches Err(ResearchError::Config(_)),
            r matches Ok(ex) ==> {
                &&& ex.config == config
                &&& ex.blocks_processed == 0
                &&& ex.divergences_found == 0
                &&& ex.metrics.registered
                &&& ex.metrics.blocks_processed_total == 0
                &&& ex.metrics.transactions_processed_total == 0
                &&& ex.metrics.divergences_total == 0
                &&& (forall|t: DivergenceType| #[trigger] ex.metrics.type_counter(t) == 0)
                &&& ex.metrics.oog_total == 0
                &&& (forall|p: OogPattern| #[trigger] ex.metrics.pattern_counter(p) == 0)
                &&& ex.metrics.gas_efficiency_ratio_observations@.len() == 0
                &&& ex.metrics.block_execution_millis@.len() == 0
                &&& ex.metrics.divergence_detection_millis@.len() == 0
                &&& (ex.divergence_db is Some <==> divergence_db is Some)
            },
    {
        match config.validate() {
            Ok(()) => {},
            Err(e) => return Err(ResearchError::Config(e)),
        }
        let mut metrics = MetricsRegistry::new();
        let ghost m0 = metrics;
        register_metrics(&mut metrics);
        proof {
            assert forall|t: DivergenceType| #[trigger] metrics.type_counter(t) == 0 by {
                assert(m0.type_counter(t) == 0);
            }
            assert forall|p: OogPattern| #[trigger] metrics.pattern_counter(p) == 0 by {
                assert(m0.pattern_counter(p) == 0);
            }
        }
        Ok(
            ResearchExecutor {
                config,
                divergence_db,
                metrics,
                blocks_processed: 0,
                divergences_found: 0,
            },
        )
    }

    /// Get statistics.
    pub fn stats(&self) -> (r: ResearchStats)
        ensures
            r.blocks_processed == self.blocks_processed,
            r.divergences_found == self.divergences_found,
    {
        ResearchStats {
            blocks_processed: self.blocks_processed,
            divergences_found: self.divergences_found,
        }
    }

    /// Whether research mode is enabled for the given block: it is at or
    /// above the configured start height.
    pub fn is_enabled_for_block(&self, block_number: u64) -> (r: bool)
        ensures
            r == (block_number >= self.config.start_block),
    {
        block_number >= self.config.start_block
    }

    /// Whether the per-block divergence cap has been reached: remaining
    /// transactions in the block are then left unanalyzed.
    pub fn reached_divergence_cap(&self, records_this_block: usize) -> (r: bool)
        ensures
            r == match self.config.max_divergences_per_block {
                Some(m) => records_this_block >= m,
                None => false,
            },
    {
        match self.config.max_divergences_per_block {
            Some(m) => records_this_block >= m,
            None => false,
        }
    }

    /// Note one processed block in the statistics and metrics.
    pub fn record_block_processed(&mut self, block_number: u64, tx_count: usize,
        duration_millis: u64)
        ensures
            final(self).blocks_processed == spec_sat_add(old(self).blocks_processed, 1),
            final(self).metrics.blocks_processed_total == spec_sat_add(
                old(self).metrics.blocks_processed_total,
                1,
            ),
            final(self).metrics.transactions_processed_total == spec_sat_add(
                old(self).metrics.transactions_processed_total,
                tx_count as u64,
            ),
            final(self).config == old(self).config,
            final(self).divergences_found == old(self).divergences_found,
    {
        self.blocks_processed = self.blocks_processed.saturating_add(1);
        crate::metrics::record_block_processed(
            &mut self.metrics,
            block_number,
            tx_count,
            duration_millis,
        );
    }

    /// Record a divergence to the store, if one is configured, and to the
    /// metrics. A store failure is swallowed: detection, not persistence, is
    /// the unit of success. Returns whether the store took the record.
    pub fn record_divergence(&mut self, divergence: &Divergence) -> (r: bool)
        ensures
            final(self).metrics.divergences_total == spec_sat_add(
                old(self).metrics.divergences_total,
                1,
            ),
            forall|t: DivergenceType|
                #[trigger] final(self).metrics.type_counter(t) == spec_sat_add_nat(
                    old(self).metrics.type_counter(t),
                    count_type(divergence.divergence_types@, t),
                ),
            final(self).metrics.gas_efficiency_ratio_observations@ == old(self).metrics.gas_efficiency_ratio_observations@.push(
                divergence.gas_analysis.gas_efficiency_ratio,
            ),
            divergence.oog_info matches Some(g) ==> final(self).metrics.oog_total == spec_sat_add(
                old(self).metrics.oog_total,
                1,
            ) && final(self).metrics.pattern_counter(g.pattern) == spec_sat_add(
                old(self).metrics.pattern_counter(g.pattern),
                1,
            ) && (forall|p: OogPattern|
                p != g.pattern ==> #[trigger] final(self).metrics.pattern_counter(p) == old(self).metrics.pattern_counter(p)),
            divergence.oog_info is None ==> final(self).metrics.oog_total == old(self).metrics.oog_total && (forall|p: OogPattern|
                #[trigger] final(self).metrics.pattern_counter(p) == old(self).metrics.pattern_counter(p)),
            old(self).divergence_db is None ==> r == false,
            r == true ==> old(self).divergence_db is Some,
            final(self).config == old(self).config,
            final(self).blocks_processed == old(self).blocks_processed,
            final(self).divergences_found == old(self).divergences_found,
            final(self).divergence_db is Some <==> old(self).divergence_db is Some,
    {
        meter_divergence(
            &mut self.metrics,
            &divergence.divergence_types,
            divergence.gas_analysis.gas_efficiency_ratio,
        );
        if let Some(g) = &divergence.oog_info {
            meter_oog(&mut self.metrics, g.pattern);
        }
        match &self.divergence_db {
            Some(db) => match db.record_divergence(divergence) {
                Ok(_) => true,
                Err(_) => false,
            },
            None => false,
        }
    }

    /// Analyze a block's execution from the authoritative receipts and the
    /// gas-cost simulator's findings, transaction by transaction: a simulated
    /// out-of-gas, a repeating gas-check pattern, or a structurally different
    /// gas ratio produces a record, which is persisted and metered; the
    /// per-block divergence cap stops the scan early, leaving the remaining
    /// transactions unanalyzed. The records report exactly the qualifying
    /// transactions of the scanned prefix, in order.
    pub fn analyze_execution(
        &mut self,
        block_number: u64,
        timestamp: u64,
        txs: &Vec<TxRecord>,
        inspector: &GasResearchInspector,
    ) -> (r: Vec<Divergence>)
        requires
            old(self).config.spec_valid(),
        ensures
            r@.len() <= txs@.len(),
            match old(self).config.max_divergences_per_block {
                Some(m) => m > 0 ==> r@.len() <= m,
                None => true,
            },
            forall|i: int|
                0 <= i < r@.len() ==> exec_record_matches(
                    #[trigger] r@[i],
                    *inspector,
                    old(self).config,
                    block_number,
                    timestamp,
                    txs@,
                ),
            exists|k: int|
                #![trigger txs@.take(k)]
                0 <= k <= txs@.len() && {
                    let q = spec_qualifying_indices(txs@.take(k), *inspector, old(self).config);
                    &&& r@.len() == q.len()
                    &&& (forall|i: int| 0 <= i < r@.len() ==> #[trigger] r@[i].tx_index == q[i])
                    &&& (k < txs@.len() ==> match old(self).config.max_divergences_per_block {
                        Some(m) => r@.len() >= m,
                        None => false,
                    })
                },
            final(self).divergences_found == spec_sat_add_nat(
                old(self).divergences_found,
                r@.len() as nat,
            ),
            final(self).metrics.divergences_total == spec_sat_add_nat(
                old(self).metrics.divergences_total,
                r@.len() as nat,
            ),
            forall|t: DivergenceType|
                #[trigger] final(self).metrics.type_counter(t) == spec_sat_add_nat(
                    old(self).metrics.type_counter(t),
                    records_type_count(r@, t),
                ),
            final(self).metrics.gas_efficiency_ratio_observations@ == old(self).metrics.gas_efficiency_ratio_observations@ + records_ratio_observations(r@),
            inspector.oog_info matches Some(g) ==> final(self).metrics.oog_total
                == spec_sat_add_nat(old(self).metrics.oog_total, r@.len() as nat) && final(self).metrics.pattern_counter(g.pattern) == spec_sat_add_nat(
                old(self).metrics.pattern_counter(g.pattern),
                r@.len() as nat,
            ) && (forall|p: OogPattern|
                p != g.pattern ==> #[trigger] final(self).metrics.pattern_counter(p) == old(self).metrics.pattern_counter(p)),
            inspector.oog_info is None ==> final(self).metrics.oog_total == old(self).metrics.oog_total && (forall|p: OogPattern|
                #[trigger] final(self).metrics.pattern_counter(p) == old(self).metrics.pattern_counter(p)),
            final(self).config == old(self).config,
            final(self).blocks_processed == old(self).blocks_processed,
    {
        let mut divergences: Vec<Divergence> = Vec::new();
        proof {
            assert(self.metrics.gas_efficiency_ratio_observations@ =~= old(self).metrics.gas_efficiency_ratio_observations@ + records_ratio_observations(
                divergences@,
            ));
        }
        let has_loop = inspector.has_gas_loop_pattern();
        let oog = inspector.oog_occurred();
        let simulated_gas = inspector.simulated_gas_used();
        let mut stopped = false;
        let mut tx_idx: usize = 0;
        while tx_idx < txs.len() && !stopped
            invariant
                tx_idx <= txs@.len(),
                divergences@.len() <= tx_idx,
                has_loop == spec_has_loop(inspector.gas_opcode_usage@),
                oog == inspector.oog_occurred,
                simulated_gas == inspector.simulated_gas_used,
                self.config == old(self).config,
                self.config.spec_valid(),
                self.blocks_processed == old(self).blocks_processed,
                match self.config.max_divergences_per_block {
                    Some(m) => {
                        &&& (m > 0 ==> divergences@.len() <= m)
                        &&& (!stopped && m > 0 ==> divergences@.len() < m)
                        &&& (!stopped && m == 0 ==> divergences@.len() == 0 && tx_idx == 0)
                    },
                    None => true,
                },
                stopped ==> match self.config.max_divergences_per_block {
                    Some(m) => divergences@.len() >= m,
                    None => false,
                },
                divergences@.len() == spec_qualifying_indices(
                    txs@.take(tx_idx as int),
                    *inspector,
                    old(self).config,
                ).len(),
                forall|i: int|
                    0 <= i < divergences@.len() ==> #[trigger] divergences@[i].tx_index
                        == spec_qualifying_indices(
                        txs@.take(tx_idx as int),
                        *inspector,
                        old(self).config,
                    )[i],
                forall|i: int|
                    0 <= i < divergences@.len() ==> exec_record_matches(
                        #[trigger] divergences@[i],
                        *inspector,
                        old(self).config,
                        block_number,
                        timestamp,
                        txs@,
                    ),
                self.divergences_found == spec_sat_add_nat(
                    old(self).divergences_found,
                    divergences@.len() as nat,
                ),
                self.metrics.divergences_total == spec_sat_add_nat(
                    old(self).metrics.divergences_total,
                    divergences@.len() as nat,
                ),
                forall|t: DivergenceType|
                    #[trigger] self.metrics.type_counter(t) == spec_sat_add_nat(
                        old(self).metrics.type_counter(t),
                        records_type_count(divergences@, t),
                    ),
                self.metrics.gas_efficiency_ratio_observations@ == old(self).metrics.gas_efficiency_ratio_observations@ + records_ratio_observations(
                    divergences@,
                ),
                inspector.oog_info matches Some(g) ==> self.metrics.oog_total == spec_sat_add_nat(
                    old(self).metrics.oog_total,
                    divergences@.len() as nat,
                ) && self.metrics.pattern_counter(g.pattern) == spec_sat_add_nat(
                    old(self).metrics.pattern_counter(g.pattern),
                    divergences@.len() as nat,
                ) && (forall|p: OogPattern|
                    p != g.pattern ==> #[trigger] self.metrics.pattern_counter(p) == old(self).metrics.pattern_counter(p)),
                inspector.oog_info is None ==> self.metrics.oog_total == old(self).metrics.oog_total && (forall|p: OogPattern|
                    #[trigger] self.metrics.pattern_counter(p) == old(self).metrics.pattern_counter(p)),
            decreases txs@.len() - tx_idx,
        {
            let tx = &txs[tx_idx];
            let mut divergence_types: Vec<DivergenceType> = Vec::new();

            if oog {
                divergence_types.push(DivergenceType::Status);
                if tx.success {
                    // Normal succeeded but experimental would have failed
                    divergence_types.push(DivergenceType::ExecutionTrace);
                }
            }

            if has_loop {
                divergence_types.push(DivergenceType::GasPattern);
            }

            let ratio = GasAnalysis::calculate_ratio(
                tx.cumulative_gas_used,
                simulated_gas,
                self.config.gas_multiplier,
            );
            let gas_analysis = GasAnalysis {
                normal_gas_used: tx.cumulative_gas_used,
                experimental_gas_used: simulated_gas,
                gas_efficiency_ratio: ratio,
            };
            if gas_analysis.is_structural_divergence() {
                divergence_types.push(DivergenceType::GasPattern);
            }

            proof {
                assert(divergence_types@ =~= spec_exec_tags(
                    oog,
                    txs@[tx_idx as int].success,
                    has_loop,
                    ratio,
                ));
                assert(txs@.take(tx_idx + 1 as int).drop_last() =~= txs@.take(tx_idx as int));
                assert(txs@.take(tx_idx + 1 as int).last() == txs@[tx_idx as int]);
            }

            if divergence_types.len() > 0 || oog {
                let ghost pre_divs = divergences@;
                let ghost pre_metrics = self.metrics;
                let divergence = Divergence {
                    block_number,
                    tx_index: tx_idx as u64,
                    tx_hash: crate::classifier::clone_bytes(&tx.hash),
                    timestamp,
                    divergence_types,
                    gas_analysis,
                    normal_ops: *inspector.operation_counts(),
                    // In simulation, ops are the same but gas differs
                    experimental_ops: *inspector.operation_counts(),
                    divergence_location: crate::classifier::clone_opt_location(
                        inspector.divergence_location(),
                    ),
                    oog_info: crate::classifier::clone_opt_oog(inspector.oog_info()),
                    call_trees: None,
                    event_logs: None,
                };
                self.record_divergence(&divergence);
                self.divergences_found = self.divergences_found.saturating_add(1);
                proof {
                    assert(exec_record_matches(
                        divergence,
                        *inspector,
                        old(self).config,
                        block_number,
                        timestamp,
                        txs@,
                    )) by {
                        assert((tx_idx as int) < txs@.len());
                        assert(txs@[tx_idx as int] == txs@[tx_idx as int]);
                    }
                }
                divergences.push(divergence);
                proof {
                    assert(divergences@.drop_last() =~= pre_divs);
                    assert forall|t: DivergenceType|
                        #[trigger] self.metrics.type_counter(t) == spec_sat_add_nat(
                            old(self).metrics.type_counter(t),
                            records_type_count(divergences@, t),
                        ) by {
                        assert(pre_metrics.type_counter(t) == spec_sat_add_nat(
                            old(self).metrics.type_counter(t),
                            records_type_count(pre_divs, t),
                        ));
                    }
                    assert(records_ratio_observations(divergences@) =~= records_ratio_observations(
                        pre_divs,
                    ).push(divergences@.last().gas_analysis.gas_efficiency_ratio));
                    assert(self.metrics.gas_efficiency_ratio_observations@ =~= old(self).metrics.gas_efficiency_ratio_observations@ + records_ratio_observations(
                        divergences@,
                    ));
                }
            }

            if let Some(max) = self.config.max_divergences_per_block {
                if divergences.len() >= max {
                    stopped = true;
                }
            }

            tx_idx += 1;
        }
        proof {
            let k = tx_idx as int;
            assert(0 <= k <= txs@.len());
            assert(txs@.take(k) == txs@.take(k));
        }
        divergences
    }

    /// Analyze one transaction whose authoritative run completed: when the
    /// experimental run completed too, classify the pair; when it failed
    /// outright, record the distinguished critical status divergence. Any
    /// produced record is persisted and metered, and counts toward the
    /// per-block cap.
    pub fn analyze_transaction(
        &mut self,
        block_number: u64,
        tx_index: u64,
        tx_hash: Vec<u8>,
        timestamp: u64,
        normal: &ExecutionOutcome,
        experimental: Option<&ExecutionOutcome>,
        normal_inspector: &TrackingInspector,
        experimental_inspector: &GasResearchInspector,
    ) -> (r: Option<Divergence>)
        requires
            old(self).config.spec_valid(),
        ensures
            experimental is None ==> r is Some,
            experimental matches Some(e) ==> (r is Some <==> (spec_expected_tags(
                *normal,
                *e,
                old(self).config.gas_multiplier,
            ).len() > 0 || experimental_inspector.oog_occurred)),
            r matches Some(d) ==> {
                &&& d.block_number == block_number
                &&& d.tx_index == tx_index
                &&& d.tx_hash@ == tx_hash@
                &&& d.timestamp == timestamp
                &&& match experimental {
                    None => d.divergence_types@ =~= seq![DivergenceType::Status]
                        && d.gas_analysis.normal_gas_used == normal.gas_used
                        && d.gas_analysis.experimental_gas_used == 0
                        && d.gas_analysis.gas_efficiency_ratio == 0,
                    Some(e) => d.divergence_types@ == spec_expected_tags(
                        *normal,
                        *e,
                        old(self).config.gas_multiplier,
                    ) && d.gas_analysis.normal_gas_used == normal.gas_used
                        && d.gas_analysis.experimental_gas_used == e.gas_used
                        && d.gas_analysis.gas_efficiency_ratio == spec_calculate_ratio(
                        normal.gas_used,
                        e.gas_used,
                        old(self).config.gas_multiplier,
                    ),
                }
                &&& d.normal_ops == normal_inspector.op_counts
                &&& d.experimental_ops == experimental_inspector.op_counts
                &&& loc_opt_matches(
                    d.divergence_location,
                    experimental_inspector.first_divergence_location,
                )
                &&& oog_opt_matches(d.oog_info, experimental_inspector.oog_info)
            },
            r is Some ==> final(self).divergences_found == spec_sat_add(
                old(self).divergences_found,
                1,
            ) && final(self).metrics.divergences_total == spec_sat_add(
                old(self).metrics.divergences_total,
                1,
            ),
            r is None ==> final(self).divergences_found == old(self).divergences_found
                && final(self).metrics == old(self).metrics,
            final(self).config == old(self).config,
            final(self).blocks_processed == old(self).blocks_processed,
    {
        match experimental {
            None => {
                // The experimental execution failed while the normal one
                // succeeded: a critical status divergence.
                let divergence = build_critical_divergence(
                    block_number,
                    tx_index,
                    tx_hash,
                    timestamp,
                    normal.gas_used,
                    normal_inspector,
                    experimental_inspector,
                    self.config.trace_detail,
                );
                self.record_divergence(&divergence);
                self.divergences_found = self.divergences_found.saturating_add(1);
                Some(divergence)
            },
            Some(e) => {
                let (divergence_types, gas_analysis) = compare_executions(
                    normal,
                    e,
                    self.config.gas_multiplier,
                );
                match build_divergence(
                    block_number,
                    tx_index,
                    tx_hash,
                    timestamp,
                    divergence_types,
                    gas_analysis,
                    normal_inspector,
                    experimental_inspector,
                    self.config.trace_detail,
                ) {
                    Some(divergence) => {
                        self.record_divergence(&divergence);
                        self.divergences_found = self.divergences_found.saturating_add(1);
                        Some(divergence)
                    },
                    None => None,
                }
            },
        }
    }
}

} // verus!
