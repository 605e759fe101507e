//! The working-set sweep: pointer chases and random accesses over buffers of
//! growing size, to expose the cache hierarchy.
use crate::engine::memory_engine::{
    lemma_resolve_one, seq_chase, seq_random, ExecutionMode, ExecutionResult, MemoryEngine,
};
use crate::engine::operations::Operation;
use crate::random;
use vstd::prelude::*;

verus! {

/// The working-set sizes a sweep covers, in bytes: 1 KiB to 64 MiB.
pub open spec fn sweep_sizes() -> Seq<usize> {
    seq![
        1024,
        4096,
        16384,
        32768,
        65536,
        131072,
        262144,
        524288,
        1048576,
        4194304,
        16777216,
        67108864,
    ]
}

/// The iterations a measurement of a working set of `bytes` runs: a
/// baseline of 100 000 up to 256 KiB (L1/L2), three times that up to 4 MiB
/// (L3), and ten times that beyond (DRAM).
pub open spec fn scaled_iterations(bytes: usize) -> usize {
    if bytes <= 256 * 1024 {
        100_000
    } else if bytes <= 4 * 1024 * 1024 {
        300_000
    } else {
        1_000_000
    }
}

/// The sequence `0, 1, .., n - 1`.
pub open spec fn identity_indices(n: u32) -> Seq<u32> {
    Seq::new(n as nat, |i: int| i as u32)
}

/// The settings of a working-set sweep.
pub struct WorkingSetSweep {
    /// The working-set sizes, in bytes.
    pub working_set_sizes: Vec<usize>,
    /// The iterations of a pointer chase.
    pub iterations: usize,
    /// The iterations run before a measurement.
    pub warmup_iterations: usize,
}

/// `0, 1, .., n - 1` in a random order.
fn shuffled_indices(n: u32) -> (indices: Vec<u32>)
    ensures
        indices@.len() == n,
        indices@.to_multiset() == identity_indices(n).to_multiset(),
        forall|i: int| 0 <= i < indices@.len() ==> #[trigger] indices@[i] < n,
{
    let mut indices: Vec<u32> = Vec::new();
    let mut k: u32 = 0;
    while k < n
        invariant
            k <= n,
            indices@ =~= identity_indices(n).take(k as int),
        decreases n - k,
    {
        indices.push(k);
        k = k + 1;
    }
    assert(indices@ =~= identity_indices(n));
    let mut rng = random::thread_rng();
    random::shuffle(&mut indices, &mut rng);
    proof {
        assert forall|i: int| 0 <= i < indices@.len() implies #[trigger] indices@[i] < n by {
            let x = indices@[i];
            indices@.to_multiset_ensures();
            identity_indices(n).to_multiset_ensures();
            assert(indices@.contains(x));
            assert(indices@.to_multiset().count(x) > 0);
            assert(identity_indices(n).to_multiset().count(x) > 0);
            assert(identity_indices(n).contains(x));
            let j = choose|j: int| 0 <= j < identity_indices(n).len() && identity_indices(n)[j] == x;
            assert(x == j as u32);
        }
    }
    indices
}

impl WorkingSetSweep {
    /// A sweep over [`sweep_sizes`], with 100 000 measured and 10 000 warmup
    /// iterations.
    pub fn new() -> (sweep: Self)
        ensures
            sweep.working_set_sizes@ == sweep_sizes(),
            sweep.iterations == 100_000,
            sweep.warmup_iterations == 10_000,
    {
        let sizes_kb: [usize; 12] = [1, 4, 16, 32, 64, 128, 256, 512, 1024, 4096, 16384, 65536];
        let mut working_set_sizes: Vec<usize> = Vec::new();
        for i in 0..12
            invariant
                sizes_kb@ == seq![1usize, 4, 16, 32, 64, 128, 256, 512, 1024, 4096, 16384, 65536],
                working_set_sizes@ =~= sweep_sizes().take(i as int),
        {
            working_set_sizes.push(sizes_kb[i] * 1024);
        }
        assert(working_set_sizes@ =~= sweep_sizes());
        WorkingSetSweep { working_set_sizes, iterations: 100_000, warmup_iterations: 10_000 }
    }

    /// The values `0 .. buffer_size` (the count taken modulo 2^32) in a random
    /// order, to be written into a buffer as pointers. Written so, each
    /// position points to exactly one position and is pointed to by exactly
    /// one (a permutation); which cycles the pointers form is random, and a
    /// chase from position 0 follows only the cycle that holds it.
    pub fn generate_pointer_chain(buffer_size: usize) -> (chain: Vec<u32>)
        ensures
            chain@.len() == buffer_size as u32,
            chain@.to_multiset() == identity_indices(buffer_size as u32).to_multiset(),
            forall|i: int| 0 <= i < chain@.len() ==> #[trigger] chain@[i] < buffer_size as u32,
    {
        shuffled_indices(buffer_size as u32)
    }

    /// The values `0 .. buffer_size` (the count taken modulo 2^32) in a random
    /// order, for independent random accesses.
    pub fn generate_random_indices(buffer_size: usize) -> (indices: Vec<u32>)
        ensures
            indices@.len() == buffer_size as u32,
            indices@.to_multiset() == identity_indices(buffer_size as u32).to_multiset(),
            forall|i: int| 0 <= i < indices@.len() ==> #[trigger] indices@[i] < buffer_size as u32,
    {
        shuffled_indices(buffer_size as u32)
    }

    /// The iterations for a working set of `working_set_bytes`; see
    /// [`scaled_iterations`].
    pub fn get_scaled_iterations(working_set_bytes: usize) -> (iterations: usize)
        ensures
            iterations == scaled_iterations(working_set_bytes),
    {
        let l2_boundary: usize = 256 * 1024;
        let l3_boundary: usize = 4 * 1024 * 1024;
        let l1_baseline: usize = 100_000;
        if working_set_bytes <= l2_boundary {
            l1_baseline
        } else if working_set_bytes <= l3_boundary {
            l1_baseline * 3
        } else {
            l1_baseline * 10
        }
    }

    /// The inputs on which a measurement over the buffer at `buffer_idx`
    /// runs: its bytes fit in a `u64`, and when it reads at all it reads a
    /// non-empty buffer.
    pub open spec fn measurement_defined(&self, engine: Seq<Seq<u32>>, buffer_idx: usize) -> bool {
        buffer_idx < engine.len() ==> {
            &&& 4 * engine[buffer_idx as int].len() <= u64::MAX
            &&& (self.iterations as u32) > 0 ==> engine[buffer_idx as int].len() >= 1
        }
    }

    /// The bytes a measurement over the buffer at `buffer_idx` reads.
    pub open spec fn measured_bytes(engine: Seq<Seq<u32>>, buffer_idx: usize) -> nat {
        if buffer_idx < engine.len() {
            4 * engine[buffer_idx as int].len()
        } else {
            0
        }
    }

    /// The data a pointer chase over the buffer at `buffer_idx` produces.
    pub open spec fn chase_output(&self, engine: Seq<Seq<u32>>, buffer_idx: usize) -> Seq<u32> {
        if buffer_idx < engine.len() {
            seq_chase(engine[buffer_idx as int], (self.iterations as u32) as nat)
        } else {
            Seq::empty()
        }
    }

    /// The data the random accesses over the buffer at `buffer_idx` produce.
    pub open spec fn random_output(&self, engine: Seq<Seq<u32>>, buffer_idx: usize) -> Seq<u32> {
        if buffer_idx < engine.len() {
            seq_random(engine[buffer_idx as int], (self.iterations as u32) as nat)
        } else {
            Seq::empty()
        }
    }

    /// A pointer chase of `iterations` (modulo 2^32) steps on the CPU.
    pub fn execute_cpu_pointer_chase(&self, engine: &MemoryEngine, buffer_idx: usize) -> (r:
        ExecutionResult)
        requires
            self.measurement_defined(engine@, buffer_idx),
        ensures
            r.data@ == self.chase_output(engine@, buffer_idx),
            r.stats.memory_access == Self::measured_bytes(engine@, buffer_idx),
            r.stats.data_moved == 4 * r.data@.len(),
            crate::timing::is_cycle_estimate(r.stats.cycles),
            r.execution_mode == ExecutionMode::CPU,
    {
        proof {
            lemma_resolve_one(engine@, buffer_idx);
        }
        let indices = [buffer_idx];
        let params = [self.iterations as u32];
        assert(indices@ =~= seq![buffer_idx]);
        assert(params@ =~= seq![self.iterations as u32]);
        engine.execute_cpu(Operation::MemPointerChase, &indices, &params)
    }

    /// A pointer chase of `iterations` (modulo 2^32) steps at the memory engine.
    pub fn execute_memory_engine_pointer_chase(&self, engine: &MemoryEngine, buffer_idx: usize) -> (r:
        ExecutionResult)
        requires
            self.measurement_defined(engine@, buffer_idx),
        ensures
            r.data@ == self.chase_output(engine@, buffer_idx),
            r.stats.memory_access == Self::measured_bytes(engine@, buffer_idx),
            r.stats.data_moved == 4 * r.data@.len(),
            crate::timing::is_cycle_estimate(r.stats.cycles),
            r.execution_mode == ExecutionMode::MemoryEngine,
    {
        proof {
            lemma_resolve_one(engine@, buffer_idx);
        }
        let indices = [buffer_idx];
        let params = [self.iterations as u32];
        assert(indices@ =~= seq![buffer_idx]);
        assert(params@ =~= seq![self.iterations as u32]);
        engine.execute_memory_engine(Operation::MemPointerChase, &indices, &params)
    }

    /// `iterations` (modulo 2^32) independent random accesses on the CPU.
    pub fn execute_cpu_random_access(&self, engine: &MemoryEngine, buffer_idx: usize) -> (r:
        ExecutionResult)
        requires
            self.measurement_defined(engine@, buffer_idx),
        ensures
            r.data@ == self.random_output(engine@, buffer_idx),
            r.stats.memory_access == Self::measured_bytes(engine@, buffer_idx),
            r.stats.data_moved == 4 * r.data@.len(),
            crate::timing::is_cycle_estimate(r.stats.cycles),
            r.execution_mode == ExecutionMode::CPU,
    {
        proof {
            lemma_resolve_one(engine@, buffer_idx);
        }
        let indices = [buffer_idx];
        let params = [self.iterations as u32];
        assert(indices@ =~= seq![buffer_idx]);
        assert(params@ =~= seq![self.iterations as u32]);
        engine.execute_cpu(Operation::MemRandomAccess, &indices, &params)
    }

    /// `iterations` (modulo 2^32) independent random accesses at the memory
    /// engine.
    pub fn execute_memory_engine_random_access(&self, engine: &MemoryEngine, buffer_idx: usize) -> (r:
        ExecutionResult)
        requires
            self.measurement_defined(engine@, buffer_idx),
        ensures
            r.data@ == self.random_output(engine@, buffer_idx),
            r.stats.memory_access == Self::measured_bytes(engine@, buffer_idx),
            r.stats.data_moved == 4 * r.data@.len(),
            crate::timing::is_cycle_estimate(r.stats.cycles),
            r.execution_mode == ExecutionMode::MemoryEngine,
    {
        proof {
            lemma_resolve_one(engine@, buffer_idx);
        }
        let indices = [buffer_idx];
        let params = [self.iterations as u32];
        assert(indices@ =~= seq![buffer_idx]);
        assert(params@ =~= seq![self.iterations as u32]);
        engine.execute_memory_engine(Operation::MemRandomAccess, &indices, &params)
    }
}

/// A working set gets 100 000 iterations up to 256 KiB, 300 000 above that up
/// to 4 MiB, and 1 000 000 beyond.
pub proof fn law_scaled_iterations_bounds(bytes: usize)
    ensures
        (scaled_iterations(bytes) == 100_000) <==> bytes <= 262144,
        (scaled_iterations(bytes) == 300_000) <==> 262144 < bytes <= 4194304,
        (scaled_iterations(bytes) == 1_000_000) <==> 4194304 < bytes,
{
}

/// A larger working set never gets fewer iterations.
pub proof fn law_scaled_iterations_monotone(small: usize, large: usize)
    requires
        small <= large,
    ensures
        scaled_iterations(small) <= scaled_iterations(large),
{
}

} // verus!
