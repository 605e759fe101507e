//! The messages a host and a node exchange: a command names an operation
//! and the buffers it runs on; a response reports what the run cost.
use vstd::prelude::*;

verus! {

/// A request to run one memory operation, tagged with a request id.
#[derive(Debug, Clone)]
pub struct Command {
    pub id: String,
    pub op: MemOp,
}

/// A memory operation on named buffers.
#[derive(Debug, Clone)]
pub enum MemOp {
    MemCopy { buffer: String },
    MemVecAdd { buffer_a: String, buffer_b: String },
    MemVecAnd { buffer_a: String, buffer_b: String },
    MemVecOr { buffer_a: String, buffer_b: String },
    MemScan { buffer: String, threshold: u32 },
    MemStrideScan { buffer: String, stride: usize },
    MemPointerChase { buffer: String, iterations: usize },
}

/// The tag that names a command's operation on the wire, such as
/// `MEM_VEC_AND`.
pub open spec fn mem_op_tag(op: MemOp) -> Seq<char> {
    match op {
        MemOp::MemCopy { .. } => "MEM_COPY"@,
        MemOp::MemVecAdd { .. } => "MEM_VEC_ADD"@,
        MemOp::MemVecAnd { .. } => "MEM_VEC_AND"@,
        MemOp::MemVecOr { .. } => "MEM_VEC_OR"@,
        MemOp::MemScan { .. } => "MEM_SCAN"@,
        MemOp::MemStrideScan { .. } => "MEM_STRIDE_SCAN"@,
        MemOp::MemPointerChase { .. } => "MEM_POINTER_CHASE"@,
    }
}

/// The names of the buffers a command runs on, in the order it gives them.
pub open spec fn mem_op_buffers(op: MemOp) -> Seq<Seq<char>> {
    match op {
        MemOp::MemCopy { buffer } => seq![buffer@],
        MemOp::MemVecAdd { buffer_a, buffer_b } => seq![buffer_a@, buffer_b@],
        MemOp::MemVecAnd { buffer_a, buffer_b } => seq![buffer_a@, buffer_b@],
        MemOp::MemVecOr { buffer_a, buffer_b } => seq![buffer_a@, buffer_b@],
        MemOp::MemScan { buffer, .. } => seq![buffer@],
        MemOp::MemStrideScan { buffer, .. } => seq![buffer@],
        MemOp::MemPointerChase { buffer, .. } => seq![buffer@],
    }
}

/// The answer to a command with the same id.
#[derive(Debug, Clone)]
pub struct Response {
    pub id: String,
    pub status: ResponseStatus,
    pub data: ResponseData,
}

/// Whether a command ran. On the wire `Success` is written `OK`.
#[derive(Debug, Clone, Copy, PartialEq, Eq, Structural)]
pub enum ResponseStatus {
    Success,
    Error,
}

/// The costs a run reports, or the reason it did not run.
#[derive(Debug, Clone)]
pub struct ResponseData {
    pub cycles: u64,
    pub instructions: u64,
    pub cache_references: u64,
    pub cache_misses: u64,
    pub memory_access: u64,
    pub data_moved: u64,
    pub result_count: usize,
    pub error: Option<String>,
}

impl ResponseData {
    /// The report of a run that completed.
    pub fn ok(
        cycles: u64,
        instructions: u64,
        cache_references: u64,
        cache_misses: u64,
        memory_access: u64,
        data_moved: u64,
        result_count: usize,
    ) -> (data: Self)
        ensures
            data.cycles == cycles,
            data.instructions == instructions,
            data.cache_references == cache_references,
            data.cache_misses == cache_misses,
            data.memory_access == memory_access,
            data.data_moved == data_moved,
            data.result_count == result_count,
            data.error is None,
    {
        ResponseData {
            cycles,
            instructions,
            cache_references,
            cache_misses,
            memory_access,
            data_moved,
            result_count,
            error: None,
        }
    }

    /// The report of a run that failed with `msg`: every count is 0.
    pub fn error(msg: String) -> (data: Self)
        ensures
            data.cycles == 0,
            data.instructions == 0,
            data.cache_references == 0,
            data.cache_misses == 0,
            data.memory_access == 0,
            data.data_moved == 0,
            data.result_count == 0,
            data.error == Some(msg),
    {
        ResponseData {
            cycles: 0,
            instructions: 0,
            cache_references: 0,
            cache_misses: 0,
            memory_access: 0,
            data_moved: 0,
            result_count: 0,
            error: Some(msg),
        }
    }
}

} // verus!
