//! An executor owns a memory engine and benchmarks operations on it.
use crate::engine::memory_engine::{
    lemma_resolve_one, lemma_resolve_two, operation_output, resolve, MemoryEngine,
};
use crate::engine::operations::{operation_name, Operation};
use vstd::prelude::*;

verus! {

/// Owns the memory engine that benchmarks run on.
pub struct Executor {
    engine: MemoryEngine,
}

impl View for Executor {
    type V = Seq<Seq<u32>>;

    /// The buffers of the engine.
    closed spec fn view(&self) -> Seq<Seq<u32>> {
        self.engine@
    }
}

/// One benchmark of the standard suite: an operation, its name, the buffers
/// it runs on and its parameters.
pub struct SuiteEntry {
    pub name: &'static str,
    pub operation: Operation,
    pub buffer_indices: Vec<usize>,
    pub params: Vec<u32>,
}

/// The operations of the standard suite, in order.
pub open spec fn suite_operations() -> Seq<Operation> {
    seq![
        Operation::MemCopy,
        Operation::MemVecAdd,
        Operation::MemVecAnd,
        Operation::MemVecOr,
        Operation::MemScan,
    ]
}

/// The buffers a suite benchmark of `op` runs on: buffer 0 for a copy or a
/// scan, buffers 0 and 1 otherwise.
pub open spec fn suite_buffers(op: Operation) -> Seq<usize> {
    if op == Operation::MemCopy || op == Operation::MemScan {
        seq![0]
    } else {
        seq![0, 1]
    }
}

/// The parameters of a suite benchmark of `op`: threshold 500 for a scan,
/// none otherwise.
pub open spec fn suite_params(op: Operation) -> Seq<u32> {
    if op == Operation::MemScan {
        seq![500]
    } else {
        seq![]
    }
}

/// Every benchmark of the suite runs on each operand its operation reads:
/// a copy or a scan on buffer 0, a vector add, and or or on buffers 0 and 1
/// in that order; so on an engine holding `a` and `b`, each benchmark gives
/// what its operation gives on `a` and `b`.
pub proof fn law_suite_feeds_every_operand(k: int, a: Seq<u32>, b: Seq<u32>)
    requires
        0 <= k < suite_operations().len(),
    ensures
        ({
            let op = suite_operations()[k];
            &&& (op == Operation::MemVecAdd || op == Operation::MemVecAnd || op
                == Operation::MemVecOr) ==> suite_buffers(op) == seq![0usize, 1usize]
            &&& (op == Operation::MemCopy || op == Operation::MemScan) ==> suite_buffers(op)
                == seq![0usize]
            &&& operation_output(op, resolve(seq![a, b], suite_buffers(op)), suite_params(op))
                == operation_output(op, seq![a, b], suite_params(op))
        }),
{
    let engine = seq![a, b];
    lemma_resolve_one(engine, 0);
    lemma_resolve_two(engine, 0, 1);
    let op = suite_operations()[k];
    if suite_buffers(op).len() == 1 {
        assert(suite_buffers(op) =~= seq![0usize]);
    } else {
        assert(suite_buffers(op) =~= seq![0usize, 1usize]);
    }
}

fn suite_entry(operation: Operation) -> (entry: SuiteEntry)
    ensures
        entry.operation == operation,
        entry.name@ == operation_name(operation),
        entry.buffer_indices@ == suite_buffers(operation),
        entry.params@ == suite_params(operation),
{
    let mut buffer_indices: Vec<usize> = Vec::new();
    let mut params: Vec<u32> = Vec::new();
    buffer_indices.push(0);
    if !(matches!(operation, Operation::MemCopy) || matches!(operation, Operation::MemScan)) {
        buffer_indices.push(1);
    }
    if matches!(operation, Operation::MemScan) {
        params.push(500);
    }
    assert(buffer_indices@ =~= suite_buffers(operation));
    assert(params@ =~= suite_params(operation));
    SuiteEntry { name: operation.name(), operation, buffer_indices, params }
}

impl Executor {
    /// An executor over an engine with no buffers.
    pub fn new() -> (executor: Self)
        ensures
            executor@ == Seq::<Seq<u32>>::empty(),
    {
        Executor { engine: MemoryEngine::new() }
    }

    /// The engine.
    pub fn engine(&self) -> (engine: &MemoryEngine)
        ensures
            engine@ == self@,
    {
        &self.engine
    }

    /// The engine, for allocating and filling buffers.
    pub fn engine_mut(&mut self) -> (engine: &mut MemoryEngine)
        ensures
            engine@ == old(self)@,
            final(self)@ == final(engine)@,
    {
        &mut self.engine
    }

    /// The benchmarks of the standard suite: copy, vector add, and, or, and a
    /// scan above 500, each on the buffers and with the parameters above.
    pub fn suite_entries(&self) -> (entries: Vec<SuiteEntry>)
        ensures
            entries@.len() == suite_operations().len(),
            forall|k: int|
                0 <= k < entries@.len() ==> {
                    &&& (#[trigger] entries@[k]).operation == suite_operations()[k]
                    &&& entries@[k].name@ == operation_name(suite_operations()[k])
                    &&& entries@[k].buffer_indices@ == suite_buffers(suite_operations()[k])
                    &&& entries@[k].params@ == suite_params(suite_operations()[k])
                },
    {
        let mut entries: Vec<SuiteEntry> = Vec::new();
        entries.push(suite_entry(Operation::MemCopy));
        entries.push(suite_entry(Operation::MemVecAdd));
        entries.push(suite_entry(Operation::MemVecAnd));
        entries.push(suite_entry(Operation::MemVecOr));
        entries.push(suite_entry(Operation::MemScan));
        entries
    }
}

impl Default for Executor {
    /// An executor over an engine with no buffers.
    fn default() -> (executor: Self)
        ensures
            executor@ == Seq::<Seq<u32>>::empty(),
    {
        Self::new()
    }
}

} // verus!
