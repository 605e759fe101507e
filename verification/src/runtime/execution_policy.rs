//! Where a scan runs: on the local CPU, or offloaded to a remote node.
use crate::engine::memory_engine::{seq_scan, MemoryEngine};
use crate::ids;
use crate::protocol::{Command, MemOp, Response};
use crate::timing;
use crate::workloads::dataset_scan::{dataset_value, fill_dataset_pattern, DatasetScan};
use vstd::prelude::*;
use vstd::string::StringExecFns;

verus! {

/// Where a workload runs.
pub enum ExecutionPolicy {
    Cpu,
    RemoteNode { address: String },
}

/// What one run of a workload cost.
pub struct PolicyResult {
    pub elapsed_ms: u128,
    pub cycles: u64,
    pub instructions: u64,
    pub cache_references: u64,
    pub cache_misses: u64,
    pub memory_access: u64,
    pub data_moved: u64,
}

/// The scan dataset of `n` elements.
pub open spec fn dataset(n: nat) -> Seq<u32> {
    Seq::new(n, |i: int| dataset_value(i))
}

impl ExecutionPolicy {
    /// Scans a fresh dataset of `buf_size` elements for the values above
    /// `threshold` on the local CPU. The byte counts are exact; the elapsed
    /// time and the cycles are what the clock gives.
    pub fn run_scan_cpu(buf_size: usize, threshold: u32) -> (r: PolicyResult)
        requires
            4 * buf_size <= isize::MAX,
        ensures
            r.memory_access == 4 * buf_size,
            r.data_moved == 4 * seq_scan(dataset(buf_size as nat), threshold).len(),
            r.instructions == 0,
            r.cache_references == 0,
            r.cache_misses == 0,
            timing::is_cycle_estimate(r.cycles),
    {
        let mut engine = MemoryEngine::new();
        let buf = engine.allocate_buffer(buf_size, 0);
        match engine.get_buffer_mut(buf) {
            Some(buf_data) => fill_dataset_pattern(buf_data),
            None => {},
        }
        assert(engine@[buf as int] =~= dataset(buf_size as nat));
        let scan = DatasetScan::new(threshold);
        let start = timing::instant_now();
        let cpu_result = scan.execute_cpu(&engine, buf);
        let nanos = timing::nanos_since(&start);
        PolicyResult {
            elapsed_ms: timing::millis_from_nanos(nanos),
            cycles: cpu_result.stats.cycles,
            instructions: 0,
            cache_references: 0,
            cache_misses: 0,
            memory_access: cpu_result.stats.memory_access,
            data_moved: cpu_result.stats.data_moved,
        }
    }

    /// The command that offloads a scan of the node's `dataset` buffer for
    /// the values above `threshold`, under a fresh request id.
    pub fn remote_scan_command(threshold: u32) -> (cmd: Command)
        ensures
            ids::is_hyphenated_uuid(cmd.id@),
            cmd.op matches MemOp::MemScan { buffer, threshold: t } && buffer@ == "dataset"@ && t
                == threshold,
    {
        let id = ids::fresh_request_id();
        Command { id, op: MemOp::MemScan { buffer: String::from_str("dataset"), threshold } }
    }

    /// What an offloaded scan cost, from the node's `response` and the
    /// `elapsed_nanos` the round trip took: the elapsed time in whole
    /// milliseconds, the cycles it takes at the estimated clock, and the
    /// node's counters.
    pub fn remote_scan_result(elapsed_nanos: u128, response: &Response) -> (r: PolicyResult)
        ensures
            r.elapsed_ms == elapsed_nanos / 1_000_000,
            r.cycles == timing::spec_cycles_from_nanos(elapsed_nanos),
            r.instructions == response.data.instructions,
            r.cache_references == response.data.cache_references,
            r.cache_misses == response.data.cache_misses,
            r.memory_access == response.data.memory_access,
            r.data_moved == response.data.data_moved,
    {
        PolicyResult {
            elapsed_ms: timing::millis_from_nanos(elapsed_nanos),
            cycles: timing::cycles_from_nanos(elapsed_nanos),
            instructions: response.data.instructions,
            cache_references: response.data.cache_references,
            cache_misses: response.data.cache_misses,
            memory_access: response.data.memory_access,
            data_moved: response.data.data_moved,
        }
    }
}

} // verus!
