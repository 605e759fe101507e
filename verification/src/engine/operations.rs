//! The operations a memory engine runs.
use vstd::prelude::*;

verus! {

/// A memory operation.
#[derive(Debug, Clone, Copy, PartialEq, Eq, Structural)]
pub enum Operation {
    MemCopy,
    MemVecAdd,
    MemVecAnd,
    MemVecOr,
    MemScan,
    MemStrideScan,
    MemPointerChase,
    MemRandomAccess,
}

/// The wire name of an operation.
pub open spec fn operation_name(op: Operation) -> Seq<char> {
    match op {
        Operation::MemCopy => "MEM_COPY"@,
        Operation::MemVecAdd => "MEM_VEC_ADD"@,
        Operation::MemVecAnd => "MEM_VEC_AND"@,
        Operation::MemVecOr => "MEM_VEC_OR"@,
        Operation::MemScan => "MEM_SCAN"@,
        Operation::MemStrideScan => "MEM_STRIDE_SCAN"@,
        Operation::MemPointerChase => "MEM_POINTER_CHASE"@,
        Operation::MemRandomAccess => "MEM_RANDOM_ACCESS"@,
    }
}

impl Operation {
    /// The operation's wire name, such as `MEM_COPY`.
    pub fn name(&self) -> (name: &'static str)
        ensures
            name@ == operation_name(*self),
    {
        match self {
            Operation::MemCopy => "MEM_COPY",
            Operation::MemVecAdd => "MEM_VEC_ADD",
            Operation::MemVecAnd => "MEM_VEC_AND",
            Operation::MemVecOr => "MEM_VEC_OR",
            Operation::MemScan => "MEM_SCAN",
            Operation::MemStrideScan => "MEM_STRIDE_SCAN",
            Operation::MemPointerChase => "MEM_POINTER_CHASE",
            Operation::MemRandomAccess => "MEM_RANDOM_ACCESS",
        }
    }
}

/// Distinct operations have distinct names.
pub proof fn law_operation_names_distinct(a: Operation, b: Operation)
    ensures
        operation_name(a) == operation_name(b) ==> a == b,
{
    reveal_strlit("MEM_COPY");
    reveal_strlit("MEM_VEC_ADD");
    reveal_strlit("MEM_VEC_AND");
    reveal_strlit("MEM_VEC_OR");
    reveal_strlit("MEM_SCAN");
    reveal_strlit("MEM_STRIDE_SCAN");
    reveal_strlit("MEM_POINTER_CHASE");
    reveal_strlit("MEM_RANDOM_ACCESS");
    assert(operation_name(Operation::MemCopy).len() != operation_name(Operation::MemVecAdd).len());
    assert(operation_name(Operation::MemCopy).len() != operation_name(Operation::MemVecAnd).len());
    assert(operation_name(Operation::MemCopy).len() != operation_name(Operation::MemVecOr).len());
    assert(operation_name(Operation::MemCopy)[4] != operation_name(Operation::MemScan)[4]);
    assert(operation_name(Operation::MemCopy).len() != operation_name(Operation::MemStrideScan).len());
    assert(operation_name(Operation::MemCopy).len() != operation_name(Operation::MemPointerChase).len());
    assert(operation_name(Operation::MemCopy).len() != operation_name(Operation::MemRandomAccess).len());
    assert(operation_name(Operation::MemVecAdd)[9] != operation_name(Operation::MemVecAnd)[9]);
    assert(operation_name(Operation::MemVecAdd).len() != operation_name(Operation::MemVecOr).len());
    assert(operation_name(Operation::MemVecAdd).len() != operation_name(Operation::MemScan).len());
    assert(operation_name(Operation::MemVecAdd).len() != operation_name(Operation::MemStrideScan).len());
    assert(operation_name(Operation::MemVecAdd).len() != operation_name(Operation::MemPointerChase).len());
    assert(operation_name(Operation::MemVecAdd).len() != operation_name(Operation::MemRandomAccess).len());
    assert(operation_name(Operation::MemVecAnd).len() != operation_name(Operation::MemVecOr).len());
    assert(operation_name(Operation::MemVecAnd).len() != operation_name(Operation::MemScan).len());
    assert(operation_name(Operation::MemVecAnd).len() != operation_name(Operation::MemStrideScan).len());
    assert(operation_name(Operation::MemVecAnd).len() != operation_name(Operation::MemPointerChase).len());
    assert(operation_name(Operation::MemVecAnd).len() != operation_name(Operation::MemRandomAccess).len());
    assert(operation_name(Operation::MemVecOr).len() != operation_name(Operation::MemScan).len());
    assert(operation_name(Operation::MemVecOr).len() != operation_name(Operation::MemStrideScan).len());
    assert(operation_name(Operation::MemVecOr).len() != operation_name(Operation::MemPointerChase).len());
    assert(operation_name(Operation::MemVecOr).len() != operation_name(Operation::MemRandomAccess).len());
    assert(operation_name(Operation::MemScan).len() != operation_name(Operation::MemStrideScan).len());
    assert(operation_name(Operation::MemScan).len() != operation_name(Operation::MemPointerChase).len());
    assert(operation_name(Operation::MemScan).len() != operation_name(Operation::MemRandomAccess).len());
    assert(operation_name(Operation::MemStrideScan).len() != operation_name(Operation::MemPointerChase).len());
    assert(operation_name(Operation::MemStrideScan).len() != operation_name(Operation::MemRandomAccess).len());
    assert(operation_name(Operation::MemPointerChase)[4] != operation_name(Operation::MemRandomAccess)[4]);
}

/// A memory operation that can run on the CPU or at the memory engine.
pub trait MemoryOp {
    fn execute_cpu(&self, buffers: &[&[u32]]) -> Vec<u32>;

    fn execute_memory_engine(&self, buffers: &[&[u32]]) -> Vec<u32>;

    fn operation_type(&self) -> Operation;
}

} // verus!
