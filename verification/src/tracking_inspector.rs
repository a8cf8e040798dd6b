//! Simple inspector that only tracks operations without modifying execution.

use vstd::prelude::*;

use crate::divergence::{CallFrame, CallType, OperationCounts};
use crate::inspector::{hook_transition, opt_bytes_view, spec_sat_sub, spec_step_counts,
    step_counts, zero_address, zero_address_seq, HookEventKind};

pub use crate::inspector::EventLogEntry;

verus! {

/// Entry in the call stack.
#[derive(Clone, Debug)]
pub struct CallStackEntry {
    /// Index the closed frame will carry
    pub call_index: usize,
    /// Depth of this frame: its index in the stack
    pub depth: usize,
    /// Caller address (20 bytes)
    pub from: Vec<u8>,
    /// Callee address, absent for a creation not yet resolved
    pub to: Option<Vec<u8>>,
    /// How the frame was entered
    pub call_type: CallType,
    /// Gas provided to the frame
    pub gas_provided: u64,
}

/// Inspector that tracks operation counts without modifying execution.
///
/// Used for the "normal" execution to get accurate operation counts
/// without any gas manipulation.
#[derive(Debug)]
pub struct TrackingInspector {
    /// Operation counts
    pub op_counts: OperationCounts,
    /// Call stack for tracking depth
    pub call_stack: Vec<CallStackEntry>,
    /// Recorded call frames
    pub call_frames: Vec<CallFrame>,
    /// Event logs captured
    pub event_logs: Vec<EventLogEntry>,
}

impl Default for TrackingInspector {
    /// A fresh tracker with nothing recorded.
    fn default() -> (r: Self)
        ensures
            r.inv(),
            r.op_counts == OperationCounts::spec_zero(),
            r.call_stack@.len() == 0,
            r.call_frames@.len() == 0,
            r.event_logs@.len() == 0,
    {
        TrackingInspector::new()
    }
}

impl TrackingInspector {
    /// The tracker's internal invariant: the tallies are consistent.
    pub open spec fn inv(self) -> bool {
        self.op_counts.wf()
    }

    /// Create a new tracking inspector.
    pub fn new() -> (r: Self)
        ensures
            r.inv(),
            r.op_counts == OperationCounts::spec_zero(),
            r.call_stack@.len() == 0,
            r.call_frames@.len() == 0,
            r.event_logs@.len() == 0,
    {
        TrackingInspector {
            op_counts: Default::default(),
            call_stack: Vec::new(),
            call_frames: Vec::new(),
            event_logs: Vec::new(),
        }
    }

    /// Get the operation counts.
    pub fn operation_counts(&self) -> (r: &OperationCounts)
        ensures
            *r == self.op_counts,
    {
        &self.op_counts
    }

    /// Get the call frames.
    pub fn call_frames(&self) -> (r: &Vec<CallFrame>)
        ensures
            *r == self.call_frames,
    {
        &self.call_frames
    }

    /// Get the event logs.
    pub fn event_logs(&self) -> (r: &Vec<EventLogEntry>)
        ensures
            *r == self.event_logs,
    {
        &self.event_logs
    }

    /// Observe one interpreter step: pure counting, no side effect on the
    /// hosted execution.
    pub fn step(&mut self, opcode: u8, memory_size: usize)
        requires
            old(self).inv(),
            old(self).op_counts.total_ops < u64::MAX,
        ensures
            final(self).inv(),
            final(self).op_counts == spec_step_counts(
                old(self).op_counts,
                opcode,
                memory_size as int / 32,
            ),
            final(self).call_stack == old(self).call_stack,
            final(self).call_frames == old(self).call_frames,
            final(self).event_logs == old(self).event_logs,
            (final(self).call_stack@.len() as nat, final(self).call_frames@.len() as nat)
                == hook_transition(
                (old(self).call_stack@.len() as nat, old(self).call_frames@.len() as nat),
                HookEventKind::Step,
            ),
    {
        let memory_words = memory_size / 32;
        step_counts(&mut self.op_counts, opcode, memory_words as u64);
    }

    /// Observe entry into a call frame.
    pub fn call(&mut self, caller: Vec<u8>, target_address: Vec<u8>, call_type: CallType,
        gas_limit: u64)
        requires
            old(self).inv(),
        ensures
            final(self).inv(),
            final(self).call_stack@.len() == old(self).call_stack@.len() + 1,
            final(self).call_stack@.drop_last() =~= old(self).call_stack@,
            final(self).call_stack@.last().call_index == old(self).call_frames@.len(),
            final(self).call_stack@.last().depth == old(self).call_stack@.len(),
            final(self).call_stack@.last().from@ == caller@,
            final(self).call_stack@.last().to matches Some(t) && t@ == target_address@,
            final(self).call_stack@.last().call_type == call_type,
            final(self).call_stack@.last().gas_provided == gas_limit,
            final(self).op_counts == old(self).op_counts,
            final(self).call_frames == old(self).call_frames,
            final(self).event_logs == old(self).event_logs,
            (final(self).call_stack@.len() as nat, final(self).call_frames@.len() as nat)
                == hook_transition(
                (old(self).call_stack@.len() as nat, old(self).call_frames@.len() as nat),
                HookEventKind::CallEnter,
            ),
    {
        let call_index = self.call_frames.len();
        let depth = self.call_stack.len();
        self.call_stack.push(
            CallStackEntry {
                call_index,
                depth,
                from: caller,
                to: Some(target_address),
                call_type,
                gas_provided: gas_limit,
            },
        );
    }

    /// Observe exit from a call frame: close the innermost open frame and
    /// record it. An exit with no matching open frame is ignored.
    pub fn call_end(&mut self, input: Option<Vec<u8>>, gas_remaining: u64, success: bool,
        output: Vec<u8>)
        requires
            old(self).inv(),
        ensures
            final(self).inv(),
            old(self).call_stack@.len() == 0 ==> final(self).call_stack@ == old(self).call_stack@
                && final(self).call_frames@ == old(self).call_frames@,
            old(self).call_stack@.len() > 0 ==> {
                &&& final(self).call_stack@ =~= old(self).call_stack@.drop_last()
                &&& final(self).call_frames@.len() == old(self).call_frames@.len() + 1
                &&& final(self).call_frames@.drop_last() =~= old(self).call_frames@
                &&& final(self).call_frames@.last().call_index == old(
                    self,
                ).call_stack@.last().call_index
                &&& final(self).call_frames@.last().depth == old(self).call_stack@.last().depth
                &&& final(self).call_frames@.last().from@ == old(self).call_stack@.last().from@
                &&& opt_bytes_view(final(self).call_frames@.last().to) == opt_bytes_view(
                    old(self).call_stack@.last().to,
                )
                &&& final(self).call_frames@.last().call_type == old(
                    self,
                ).call_stack@.last().call_type
                &&& final(self).call_frames@.last().gas_provided == old(
                    self,
                ).call_stack@.last().gas_provided
                &&& final(self).call_frames@.last().gas_used == spec_sat_sub(
                    old(self).call_stack@.last().gas_provided,
                    gas_remaining,
                )
                &&& final(self).call_frames@.last().success == success
                &&& opt_bytes_view(final(self).call_frames@.last().input) == opt_bytes_view(input)
                &&& final(self).call_frames@.last().output matches Some(o) && o@ == output@
            },
            final(self).op_counts == old(self).op_counts,
            final(self).event_logs == old(self).event_logs,
            (final(self).call_stack@.len() as nat, final(self).call_frames@.len() as nat)
                == hook_transition(
                (old(self).call_stack@.len() as nat, old(self).call_frames@.len() as nat),
                HookEventKind::CallExit,
            ),
    {
        if let Some(entry) = self.call_stack.pop() {
            let gas_used = entry.gas_provided.saturating_sub(gas_remaining);
            self.call_frames.push(
                CallFrame {
                    call_index: entry.call_index,
                    depth: entry.depth,
                    from: entry.from,
                    to: entry.to,
                    call_type: entry.call_type,
                    gas_provided: entry.gas_provided,
                    gas_used,
                    success,
                    input,
                    output: Some(output),
                },
            );
        }
    }

    /// Observe entry into a contract-creation frame; the created address is
    /// not known yet.
    pub fn create(&mut self, caller: Vec<u8>, call_type: CallType, gas_limit: u64)
        requires
            old(self).inv(),
        ensures
            final(self).inv(),
            final(self).call_stack@.len() == old(self).call_stack@.len() + 1,
            final(self).call_stack@.drop_last() =~= old(self).call_stack@,
            final(self).call_stack@.last().call_index == old(self).call_frames@.len(),
            final(self).call_stack@.last().depth == old(self).call_stack@.len(),
            final(self).call_stack@.last().from@ == caller@,
            final(self).call_stack@.last().to is None,
            final(self).call_stack@.last().call_type == call_type,
            final(self).call_stack@.last().gas_provided == gas_limit,
            final(self).op_counts == old(self).op_counts,
            final(self).call_frames == old(self).call_frames,
            final(self).event_logs == old(self).event_logs,
            (final(self).call_stack@.len() as nat, final(self).call_frames@.len() as nat)
                == hook_transition(
                (old(self).call_stack@.len() as nat, old(self).call_frames@.len() as nat),
                HookEventKind::CreateEnter,
            ),
    {
        let call_index = self.call_frames.len();
        let depth = self.call_stack.len();
        self.call_stack.push(
            CallStackEntry {
                call_index,
                depth,
                from: caller,
                to: None,
                call_type,
                gas_provided: gas_limit,
            },
        );
    }

    /// Observe exit from a contract-creation frame: close the innermost open
    /// frame and record it, resolving the created address (the zero address
    /// when creation yielded none). An exit with no matching open frame is
    /// ignored.
    pub fn create_end(&mut self, created_address: Option<Vec<u8>>, init_code: Vec<u8>,
        gas_remaining: u64, success: bool, output: Vec<u8>)
        requires
            old(self).inv(),
        ensures
            final(self).inv(),
            old(self).call_stack@.len() == 0 ==> final(self).call_stack@ == old(self).call_stack@
                && final(self).call_frames@ == old(self).call_frames@,
            old(self).call_stack@.len() > 0 ==> {
                &&& final(self).call_stack@ =~= old(self).call_stack@.drop_last()
                &&& final(self).call_frames@.len() == old(self).call_frames@.len() + 1
                &&& final(self).call_frames@.drop_last() =~= old(self).call_frames@
                &&& final(self).call_frames@.last().call_index == old(
                    self,
                ).call_stack@.last().call_index
                &&& final(self).call_frames@.last().depth == old(self).call_stack@.last().depth
                &&& final(self).call_frames@.last().from@ == old(self).call_stack@.last().from@
                &&& final(self).call_frames@.last().to matches Some(t) && t@ == (
                match created_address {
                    Some(a) => a@,
                    None => zero_address_seq(),
                })
                &&& final(self).call_frames@.last().call_type == old(
                    self,
                ).call_stack@.last().call_type
                &&& final(self).call_frames@.last().gas_provided == old(
                    self,
                ).call_stack@.last().gas_provided
                &&& final(self).call_frames@.last().gas_used == spec_sat_sub(
                    old(self).call_stack@.last().gas_provided,
                    gas_remaining,
                )
                &&& final(self).call_frames@.last().success == success
                &&& final(self).call_frames@.last().input matches Some(iv) && iv@ == init_code@
                &&& final(self).call_frames@.last().output matches Some(o) && o@ == output@
            },
            final(self).op_counts == old(self).op_counts,
            final(self).event_logs == old(self).event_logs,
            (final(self).call_stack@.len() as nat, final(self).call_frames@.len() as nat)
                == hook_transition(
                (old(self).call_stack@.len() as nat, old(self).call_frames@.len() as nat),
                HookEventKind::CreateExit,
            ),
    {
        if let Some(entry) = self.call_stack.pop() {
            let gas_used = entry.gas_provided.saturating_sub(gas_remaining);
            let created = match created_address {
                Some(a) => a,
                None => zero_address(),
            };
            self.call_frames.push(
                CallFrame {
                    call_index: entry.call_index,
                    depth: entry.depth,
                    from: entry.from,
                    to: Some(created),
                    call_type: entry.call_type,
                    gas_provided: entry.gas_provided,
                    gas_used,
                    success,
                    input: Some(init_code),
                    output: Some(output),
                },
            );
        }
    }

    /// Observe an emitted log.
    pub fn log(&mut self, address: Vec<u8>, topics: Vec<Vec<u8>>, data: Vec<u8>)
        requires
            old(self).inv(),
        ensures
            final(self).inv(),
            final(self).event_logs@.len() == old(self).event_logs@.len() + 1,
            final(self).event_logs@.drop_last() =~= old(self).event_logs@,
            final(self).event_logs@.last().log_index == old(self).event_logs@.len(),
            final(self).event_logs@.last().address@ == address@,
            final(self).event_logs@.last().topics == topics,
            final(self).event_logs@.last().data@ == data@,
            final(self).op_counts == old(self).op_counts,
            final(self).call_stack == old(self).call_stack,
            final(self).call_frames == old(self).call_frames,
            (final(self).call_stack@.len() as nat, final(self).call_frames@.len() as nat)
                == hook_transition(
                (old(self).call_stack@.len() as nat, old(self).call_frames@.len() as nat),
                HookEventKind::LogEmitted,
            ),
    {
        let log_index = self.event_logs.len();
        self.event_logs.push(EventLogEntry { log_index, address, topics, data });
    }
}

} // verus!
