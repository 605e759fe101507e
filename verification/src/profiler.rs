//! Hardware performance counters of one workload execution. Reading them is
//! done by the `measure` function of the application layer.
use vstd::prelude::*;

verus! {

/// Hardware performance counters collected for a single workload execution.
#[derive(Debug, Clone)]
pub struct HardwareCounters {
    pub cycles: u64,
    pub instructions: u64,
    pub cache_references: u64,
    pub cache_misses: u64,
}

} // verus!
