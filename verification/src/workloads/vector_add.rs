//! The vector-addition workload.
use crate::engine::memory_engine::{
    lemma_resolve_two, named_len, seq_add, ExecutionMode, ExecutionResult, MemoryEngine,
};
use crate::engine::operations::Operation;
use vstd::prelude::*;

verus! {

/// Element-wise addition of two buffers.
pub struct VectorAdd;

/// The data an addition of the buffers at `a` and `b` produces: their sums
/// modulo 2^32 over their common length, or nothing unless both exist.
pub open spec fn vector_add_output(engine: Seq<Seq<u32>>, a: usize, b: usize) -> Seq<u32> {
    if a < engine.len() && b < engine.len() {
        seq_add(engine[a as int], engine[b as int])
    } else {
        Seq::empty()
    }
}

impl VectorAdd {
    /// Adds the buffers at `buffer_a` and `buffer_b` on the CPU.
    pub fn execute_cpu(engine: &MemoryEngine, buffer_a: usize, buffer_b: usize) -> (r:
        ExecutionResult)
        requires
            4 * (named_len(engine@, buffer_a) + named_len(engine@, buffer_b)) <= u64::MAX,
        ensures
            r.data@ == vector_add_output(engine@, buffer_a, buffer_b),
            r.stats.memory_access == 4 * (named_len(engine@, buffer_a) + named_len(
                engine@,
                buffer_b,
            )),
            r.stats.data_moved == 4 * r.data@.len(),
            crate::timing::is_cycle_estimate(r.stats.cycles),
            r.execution_mode == ExecutionMode::CPU,
    {
        proof {
            lemma_resolve_two(engine@, buffer_a, buffer_b);
        }
        let indices = [buffer_a, buffer_b];
        let params: [u32; 0] = [];
        assert(indices@ =~= seq![buffer_a, buffer_b]);
        engine.execute_cpu(Operation::MemVecAdd, &indices, &params)
    }

    /// Adds the buffers at `buffer_a` and `buffer_b` at the memory engine.
    pub fn execute_memory_engine(engine: &MemoryEngine, buffer_a: usize, buffer_b: usize) -> (r:
        ExecutionResult)
        requires
            4 * (named_len(engine@, buffer_a) + named_len(engine@, buffer_b)) <= u64::MAX,
        ensures
            r.data@ == vector_add_output(engine@, buffer_a, buffer_b),
            r.stats.memory_access == 4 * (named_len(engine@, buffer_a) + named_len(
                engine@,
                buffer_b,
            )),
            r.stats.data_moved == 4 * r.data@.len(),
            crate::timing::is_cycle_estimate(r.stats.cycles),
            r.execution_mode == ExecutionMode::MemoryEngine,
    {
        proof {
            lemma_resolve_two(engine@, buffer_a, buffer_b);
        }
        let indices = [buffer_a, buffer_b];
        let params: [u32; 0] = [];
        assert(indices@ =~= seq![buffer_a, buffer_b]);
        engine.execute_memory_engine(Operation::MemVecAdd, &indices, &params)
    }
}

} // verus!
