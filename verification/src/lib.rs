//! A processing-near-memory experiment library: a memory engine that holds
//! `u32` buffers and runs memory operations on them, the workloads and
//! experiment plans built on it, and the request/response protocol spoken
//! between a host and a node.
pub mod engine;
pub mod experiment;
pub mod ids;
pub mod node;
pub mod profiler;
pub mod protocol;
pub mod random;
pub mod runtime;
pub mod timing;
pub mod workloads;

use vstd::prelude::*;

verus! {

/// What one execution of an operation cost.
#[derive(Copy, Clone, Debug)]
pub struct OperationStats {
    pub cycles: u64,
    pub memory_access: u64,
    pub data_moved: u64,
}

} // verus!
