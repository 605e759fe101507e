pub mod laws;
pub mod memory_engine;
pub mod operations;

pub use memory_engine::{ExecutionMode, ExecutionResult, MemoryEngine};
pub use operations::{MemoryOp, Operation};
