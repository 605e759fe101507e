//! What a node decides when a command arrives: which buffers its names
//! denote, which engine operation to run on them, and what to answer.
use crate::engine::memory_engine::ExecutionResult;
use crate::engine::operations::{operation_name, Operation};
use crate::profiler::HardwareCounters;
use crate::protocol::{
    mem_op_buffers, mem_op_tag, Command, MemOp, Response, ResponseData, ResponseStatus,
};
use vstd::prelude::*;
use vstd::string::StringExecFns;

verus! {

/// The buffers a node has named: each name denotes an engine buffer index
/// and its element count. A later entry for a name replaces an earlier one,
/// as an insert into a hash map does. The names are kept as a list searched
/// from the end, since a `HashMap` keyed by `String` has no specification
/// here from which its lookups could be proved.
pub struct BufferNames {
    entries: Vec<(String, usize, usize)>,
}

/// The names that `entries` defines, the later entries winning.
pub open spec fn names_map(entries: Seq<(String, usize, usize)>) -> Map<Seq<char>, (usize, usize)>
    decreases entries.len(),
{
    if entries.len() == 0 {
        Map::empty()
    } else {
        names_map(entries.drop_last()).insert(
            entries.last().0@,
            (entries.last().1, entries.last().2),
        )
    }
}

impl View for BufferNames {
    type V = Map<Seq<char>, (usize, usize)>;

    closed spec fn view(&self) -> Map<Seq<char>, (usize, usize)> {
        names_map(self.entries@)
    }
}

impl BufferNames {
    /// No names.
    pub fn new() -> (names: Self)
        ensures
            names@ == Map::<Seq<char>, (usize, usize)>::empty(),
    {
        BufferNames { entries: Vec::new() }
    }

    /// Names the buffer at `idx`, of `size` elements, `name`.
    pub fn insert(&mut self, name: String, idx: usize, size: usize)
        ensures
            final(self)@ == old(self)@.insert(name@, (idx, size)),
    {
        let ghost key = name@;
        self.entries.push((name, idx, size));
        assert(self.entries@.drop_last() =~= old(self).entries@);
    }

    /// The buffer index and element count that `name` denotes, if any.
    pub fn get(&self, name: &String) -> (found: Option<(usize, usize)>)
        ensures
            found is Some <==> self@.contains_key(name@),
            found matches Some(v) ==> v == self@[name@],
    {
        let mut j = self.entries.len();
        assert(self.entries@.take(j as int) =~= self.entries@);
        while j > 0
            invariant
                j <= self.entries@.len(),
                names_map(self.entries@.take(j as int)).contains_key(name@) == self@.contains_key(
                    name@,
                ),
                self@.contains_key(name@) ==> names_map(self.entries@.take(j as int))[name@]
                    == self@[name@],
            decreases j,
        {
            let entry = &self.entries[j - 1];
            proof {
                let pre = self.entries@.take(j as int);
                assert(pre.drop_last() =~= self.entries@.take(j - 1));
                assert(pre.last() == self.entries@[j - 1]);
            }
            if entry.0 == *name {
                return Some((entry.1, entry.2));
            }
            j = j - 1;
        }
        assert(self.entries@.take(0) =~= Seq::<(String, usize, usize)>::empty());
        None
    }
}

/// A name reads back the buffer it was last given, and naming one buffer
/// leaves every other name as it was.
pub proof fn law_name_reads_back(
    names: Map<Seq<char>, (usize, usize)>,
    name: Seq<char>,
    idx: usize,
    size: usize,
    other: Seq<char>,
)
    requires
        other != name,
    ensures
        names.insert(name, (idx, size)).contains_key(name),
        names.insert(name, (idx, size))[name] == (idx, size),
        names.insert(name, (idx, size)).contains_key(other) == names.contains_key(other),
        names.contains_key(other) ==> names.insert(name, (idx, size))[other] == names[other],
{
}

/// An engine operation, the engine buffers it runs on, and its parameters.
pub struct CommandPlan {
    pub operation: Operation,
    pub buffer_indices: Vec<usize>,
    pub params: Vec<u32>,
}

/// The plan of a command on one named buffer, or the error naming it.
pub open spec fn one_buffer_plan(
    names: Map<Seq<char>, (usize, usize)>,
    buffer: Seq<char>,
    operation: Operation,
    params: Seq<u32>,
) -> Result<(Operation, Seq<usize>, Seq<u32>), Seq<char>> {
    if names.contains_key(buffer) {
        Ok((operation, seq![names[buffer].0], params))
    } else {
        Err("Buffer not found: "@ + buffer)
    }
}

/// The plan of a command on two named buffers, or the error.
pub open spec fn two_buffer_plan(
    names: Map<Seq<char>, (usize, usize)>,
    buffer_a: Seq<char>,
    buffer_b: Seq<char>,
    operation: Operation,
) -> Result<(Operation, Seq<usize>, Seq<u32>), Seq<char>> {
    if names.contains_key(buffer_a) && names.contains_key(buffer_b) {
        Ok((operation, seq![names[buffer_a].0, names[buffer_b].0], Seq::empty()))
    } else {
        Err("Buffers not found"@)
    }
}

/// What a node runs for `op`: the operation of the same name on the buffers
/// its names denote, with its threshold, stride or iteration count (the last
/// two taken modulo 2^32) as the parameter; an error when a name denotes no
/// buffer.
pub open spec fn command_plan(op: MemOp, names: Map<Seq<char>, (usize, usize)>) -> Result<
    (Operation, Seq<usize>, Seq<u32>),
    Seq<char>,
> {
    match op {
        MemOp::MemCopy { buffer } => one_buffer_plan(names, buffer@, Operation::MemCopy, seq![]),
        MemOp::MemVecAdd { buffer_a, buffer_b } => two_buffer_plan(
            names,
            buffer_a@,
            buffer_b@,
            Operation::MemVecAdd,
        ),
        MemOp::MemVecAnd { buffer_a, buffer_b } => two_buffer_plan(
            names,
            buffer_a@,
            buffer_b@,
            Operation::MemVecAnd,
        ),
        MemOp::MemVecOr { buffer_a, buffer_b } => two_buffer_plan(
            names,
            buffer_a@,
            buffer_b@,
            Operation::MemVecOr,
        ),
        MemOp::MemScan { buffer, threshold } => one_buffer_plan(
            names,
            buffer@,
            Operation::MemScan,
            seq![threshold],
        ),
        MemOp::MemStrideScan { buffer, stride } => one_buffer_plan(
            names,
            buffer@,
            Operation::MemStrideScan,
            seq![stride as u32],
        ),
        MemOp::MemPointerChase { buffer, iterations } => one_buffer_plan(
            names,
            buffer@,
            Operation::MemPointerChase,
            seq![iterations as u32],
        ),
    }
}

/// A node runs the operation that a command names, on the buffers that it
/// names: the plan succeeds exactly when every named buffer is known, and
/// then its operation bears the command's wire tag as its name and its
/// buffer indices are those the names denote, in the command's order.
pub proof fn law_plan_runs_the_named_operation(op: MemOp, names: Map<Seq<char>, (usize, usize)>)
    ensures
        command_plan(op, names) is Ok <==> (forall|k: int|
            0 <= k < mem_op_buffers(op).len() ==> names.contains_key(
                #[trigger] mem_op_buffers(op)[k],
            )),
        command_plan(op, names) matches Ok(plan) ==> {
            &&& operation_name(plan.0) == mem_op_tag(op)
            &&& plan.1.len() == mem_op_buffers(op).len()
            &&& forall|k: int|
                0 <= k < plan.1.len() ==> plan.1[k] == names[#[trigger] mem_op_buffers(op)[k]].0
        },
{
    let bufs = mem_op_buffers(op);
    if bufs.len() == 1 {
        assert(bufs[0] == bufs[0]);
    } else {
        assert(bufs[0] == bufs[0]);
        assert(bufs[1] == bufs[1]);
    }
}

/// The plan as plain values.
pub open spec fn plan_view(plan: CommandPlan) -> (Operation, Seq<usize>, Seq<u32>) {
    (plan.operation, plan.buffer_indices@, plan.params@)
}

fn plan_one(names: &BufferNames, buffer: &String, operation: Operation, params: Vec<u32>) -> (res:
    Result<CommandPlan, String>)
    ensures
        match res {
            Ok(plan) => one_buffer_plan(names@, buffer@, operation, params@) == Ok::<
                (Operation, Seq<usize>, Seq<u32>),
                Seq<char>,
            >(plan_view(plan)),
            Err(msg) => one_buffer_plan(names@, buffer@, operation, params@) == Err::<
                (Operation, Seq<usize>, Seq<u32>),
                Seq<char>,
            >(msg@),
        },
{
    match names.get(buffer) {
        Some((idx, _size)) => {
            let mut buffer_indices: Vec<usize> = Vec::new();
            buffer_indices.push(idx);
            assert(buffer_indices@ =~= seq![idx]);
            Ok(CommandPlan { operation, buffer_indices, params })
        },
        None => {
            let mut msg = String::from_str("Buffer not found: ");
            msg.append(buffer.as_str());
            Err(msg)
        },
    }
}

fn plan_two(names: &BufferNames, buffer_a: &String, buffer_b: &String, operation: Operation) -> (res:
    Result<CommandPlan, String>)
    ensures
        match res {
            Ok(plan) => two_buffer_plan(names@, buffer_a@, buffer_b@, operation) == Ok::<
                (Operation, Seq<usize>, Seq<u32>),
                Seq<char>,
            >(plan_view(plan)),
            Err(msg) => two_buffer_plan(names@, buffer_a@, buffer_b@, operation) == Err::<
                (Operation, Seq<usize>, Seq<u32>),
                Seq<char>,
            >(msg@),
        },
{
    let a = names.get(buffer_a);
    let b = names.get(buffer_b);
    match (a, b) {
        (Some((idx_a, _)), Some((idx_b, _))) => {
            let mut buffer_indices: Vec<usize> = Vec::new();
            buffer_indices.push(idx_a);
            buffer_indices.push(idx_b);
            assert(buffer_indices@ =~= seq![idx_a, idx_b]);
            let params: Vec<u32> = Vec::new();
            assert(params@ =~= Seq::<u32>::empty());
            Ok(CommandPlan { operation, buffer_indices, params })
        },
        _ => Err(String::from_str("Buffers not found")),
    }
}

/// Decides what a node runs for `op`; see [`command_plan`].
pub fn plan_command(op: &MemOp, names: &BufferNames) -> (res: Result<CommandPlan, String>)
    ensures
        match res {
            Ok(plan) => command_plan(*op, names@) == Ok::<
                (Operation, Seq<usize>, Seq<u32>),
                Seq<char>,
            >(plan_view(plan)),
            Err(msg) => command_plan(*op, names@) == Err::<
                (Operation, Seq<usize>, Seq<u32>),
                Seq<char>,
            >(msg@),
        },
{
    match op {
        MemOp::MemCopy { buffer } => {
            let params: Vec<u32> = Vec::new();
            assert(params@ =~= seq![]);
            plan_one(names, buffer, Operation::MemCopy, params)
        },
        MemOp::MemVecAdd { buffer_a, buffer_b } => plan_two(
            names,
            buffer_a,
            buffer_b,
            Operation::MemVecAdd,
        ),
        MemOp::MemVecAnd { buffer_a, buffer_b } => plan_two(
            names,
            buffer_a,
            buffer_b,
            Operation::MemVecAnd,
        ),
        MemOp::MemVecOr { buffer_a, buffer_b } => plan_two(
            names,
            buffer_a,
            buffer_b,
            Operation::MemVecOr,
        ),
        MemOp::MemScan { buffer, threshold } => {
            let mut params: Vec<u32> = Vec::new();
            params.push(*threshold);
            assert(params@ =~= seq![*threshold]);
            plan_one(names, buffer, Operation::MemScan, params)
        },
        MemOp::MemStrideScan { buffer, stride } => {
            let mut params: Vec<u32> = Vec::new();
            params.push(*stride as u32);
            assert(params@ =~= seq![*stride as u32]);
            plan_one(names, buffer, Operation::MemStrideScan, params)
        },
        MemOp::MemPointerChase { buffer, iterations } => {
            let mut params: Vec<u32> = Vec::new();
            params.push(*iterations as u32);
            assert(params@ =~= seq![*iterations as u32]);
            plan_one(names, buffer, Operation::MemPointerChase, params)
        },
    }
}

/// The answer to the command `id` whose run took `cycles` and produced
/// `result`, with the hardware counters measured around it.
pub fn completed_response(
    id: String,
    cycles: u64,
    counters: &HardwareCounters,
    result: &ExecutionResult,
) -> (response: Response)
    ensures
        response.id == id,
        response.status == ResponseStatus::Success,
        response.data.cycles == cycles,
        response.data.instructions == counters.instructions,
        response.data.cache_references == counters.cache_references,
        response.data.cache_misses == counters.cache_misses,
        response.data.memory_access == result.stats.memory_access,
        response.data.data_moved == result.stats.data_moved,
        response.data.result_count == result.data@.len(),
        response.data.error is None,
{
    Response {
        id,
        status: ResponseStatus::Success,
        data: ResponseData::ok(
            cycles,
            counters.instructions,
            counters.cache_references,
            counters.cache_misses,
            result.stats.memory_access,
            result.stats.data_moved,
            result.data.len(),
        ),
    }
}

/// The answer to the command `id` that failed with `msg`.
pub fn failed_response(id: String, msg: String) -> (response: Response)
    ensures
        response.id == id,
        response.status == ResponseStatus::Error,
        response.data.result_count == 0,
        response.data.cycles == 0,
        response.data.instructions == 0,
        response.data.cache_references == 0,
        response.data.cache_misses == 0,
        response.data.memory_access == 0,
        response.data.data_moved == 0,
        response.data.error == Some(msg),
{
    Response { id, status: ResponseStatus::Error, data: ResponseData::error(msg) }
}

} // verus!
