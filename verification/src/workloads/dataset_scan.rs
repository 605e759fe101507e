//! The dataset scan workload: keep the values above a threshold.
use crate::engine::memory_engine::{
    lemma_resolve_one, operation_output, resolve, seq_scan, ExecutionMode, ExecutionResult,
    MemoryEngine,
};
use crate::engine::operations::Operation;
use vstd::prelude::*;

verus! {

/// The pseudo-random value that the scan dataset holds at position `i`:
/// `i * 7919` modulo 2^32, modulo 1000.
pub open spec fn dataset_value(i: int) -> u32 {
    ((((i % 0x1_0000_0000) * 7919) % 0x1_0000_0000) % 1000) as u32
}

/// Fills `buf` with the scan dataset: position `i` gets [`dataset_value`]`(i)`.
pub fn fill_dataset_pattern(buf: &mut [u32])
    ensures
        final(buf)@ == Seq::new(old(buf)@.len(), |i: int| dataset_value(i)),
{
    let n = buf.len();
    for i in 0..n
        invariant
            n == buf@.len(),
            n == old(buf)@.len(),
            forall|k: int| 0 <= k < i ==> buf@[k] == dataset_value(k),
    {
        let v = (i as u32).wrapping_mul(7919) % 1000;
        assert(v == dataset_value(i as int)) by {
            assert((i as u32) as int == (i as int) % 0x1_0000_0000) by (bit_vector);
        }
        buf[i] = v;
    }
    assert(buf@ =~= Seq::new(old(buf)@.len(), |i: int| dataset_value(i)));
}

/// A scan for the values above `threshold`.
pub struct DatasetScan {
    pub threshold: u32,
}

impl DatasetScan {
    pub fn new(threshold: u32) -> (scan: Self)
        ensures
            scan.threshold == threshold,
    {
        DatasetScan { threshold }
    }

    /// The data a scan of the buffer at `buffer_idx` produces: its values
    /// above the threshold, or nothing when there is no such buffer.
    pub open spec fn scan_output(&self, engine: Seq<Seq<u32>>, buffer_idx: usize) -> Seq<u32> {
        if buffer_idx < engine.len() {
            seq_scan(engine[buffer_idx as int], self.threshold)
        } else {
            Seq::empty()
        }
    }

    /// The byte count a scan of the buffer at `buffer_idx` reads.
    pub open spec fn scan_bytes(&self, engine: Seq<Seq<u32>>, buffer_idx: usize) -> nat {
        if buffer_idx < engine.len() {
            4 * engine[buffer_idx as int].len()
        } else {
            0
        }
    }

    /// Scans the buffer at `buffer_idx` on the CPU.
    pub fn execute_cpu(&self, engine: &MemoryEngine, buffer_idx: usize) -> (r: ExecutionResult)
        requires
            self.scan_bytes(engine@, buffer_idx) <= u64::MAX,
        ensures
            r.data@ == self.scan_output(engine@, buffer_idx),
            r.stats.memory_access == self.scan_bytes(engine@, buffer_idx),
            r.stats.data_moved == 4 * r.data@.len(),
            crate::timing::is_cycle_estimate(r.stats.cycles),
            r.execution_mode == ExecutionMode::CPU,
    {
        proof {
            lemma_resolve_one(engine@, buffer_idx);
        }
        let indices = [buffer_idx];
        let params = [self.threshold];
        assert(indices@ =~= seq![buffer_idx]);
        assert(params@ =~= seq![self.threshold]);
        engine.execute_cpu(Operation::MemScan, &indices, &params)
    }

    /// Scans the buffer at `buffer_idx` at the memory engine.
    pub fn execute_memory_engine(&self, engine: &MemoryEngine, buffer_idx: usize) -> (r:
        ExecutionResult)
        requires
            self.scan_bytes(engine@, buffer_idx) <= u64::MAX,
        ensures
            r.data@ == self.scan_output(engine@, buffer_idx),
            r.stats.memory_access == self.scan_bytes(engine@, buffer_idx),
            r.stats.data_moved == 4 * r.data@.len(),
            crate::timing::is_cycle_estimate(r.stats.cycles),
            r.execution_mode == ExecutionMode::MemoryEngine,
    {
        proof {
            lemma_resolve_one(engine@, buffer_idx);
        }
        let indices = [buffer_idx];
        let params = [self.threshold];
        assert(indices@ =~= seq![buffer_idx]);
        assert(params@ =~= seq![self.threshold]);
        engine.execute_memory_engine(Operation::MemScan, &indices, &params)
    }
}

} // verus!
