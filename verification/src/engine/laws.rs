//! Properties of the memory operations that hold for every input.
use super::memory_engine::{
    chase_position, lemma_total_len_bounds, operation_output, seq_add, seq_and, seq_chase, seq_or, seq_scan, seq_stride,
    total_len,
};
use super::operations::Operation;
use vstd::prelude::*;

verus! {

/// A freshly allocated buffer reads back as `size` copies of `value` at the
/// next index, and every earlier buffer is unchanged.
pub proof fn law_allocation_reads_back(buffers: Seq<Seq<u32>>, size: usize, value: u32)
    ensures
        ({
            let after = buffers.push(Seq::new(size as nat, |i: int| value));
            &&& after.len() == buffers.len() + 1
            &&& after[buffers.len() as int].len() == size
            &&& forall|i: int| 0 <= i < size ==> #[trigger] after[buffers.len() as int][i] == value
            &&& forall|j: int| 0 <= j < buffers.len() ==> #[trigger] after[j] == buffers[j]
        }),
{
}

/// The buffers of an engine made by `MemoryEngine::new` followed by one
/// `allocate_buffer(size, value)` for each `(size, value)` of `allocations`.
pub open spec fn allocated(allocations: Seq<(usize, u32)>) -> Seq<Seq<u32>>
    decreases allocations.len(),
{
    if allocations.len() == 0 {
        Seq::empty()
    } else {
        allocated(allocations.drop_last()).push(
            Seq::new(allocations.last().0 as nat, |i: int| allocations.last().1),
        )
    }
}

/// After any sequence of allocations, buffer `j` is the `j`-th allocation:
/// `size` copies of `value`.
pub proof fn law_allocations_read_back(allocations: Seq<(usize, u32)>)
    ensures
        allocated(allocations).len() == allocations.len(),
        forall|j: int|
            0 <= j < allocations.len() ==> #[trigger] allocated(allocations)[j] == Seq::new(
                allocations[j].0 as nat,
                |i: int| allocations[j].1,
            ),
    decreases allocations.len(),
{
    if allocations.len() > 0 {
        let rest = allocations.drop_last();
        law_allocations_read_back(rest);
        assert forall|j: int| 0 <= j < allocations.len() implies #[trigger] allocated(allocations)[j]
            == Seq::new(allocations[j].0 as nat, |i: int| allocations[j].1) by {
            if j < rest.len() {
                assert(allocated(allocations)[j] == allocated(rest)[j]);
                assert(rest[j] == allocations[j]);
            }
        }
    }
}

/// A write through `get_buffer_mut(idx)` changes only buffer `idx`: the
/// number of buffers and every other buffer stay as they were.
pub proof fn law_write_keeps_other_buffers(buffers: Seq<Seq<u32>>, idx: int, written: Seq<u32>)
    requires
        0 <= idx < buffers.len(),
    ensures
        buffers.update(idx, written).len() == buffers.len(),
        buffers.update(idx, written)[idx] == written,
        forall|j: int|
            0 <= j < buffers.len() && j != idx ==> #[trigger] buffers.update(idx, written)[j]
                == buffers[j],
{
}

/// Except for a pointer chase and a random access, whose output length is the
/// iteration count, an operation returns no more elements than it reads: the
/// memory engine moves at most the bytes it touches.
pub proof fn law_output_within_input(op: Operation, bufs: Seq<Seq<u32>>, params: Seq<u32>)
    requires
        op != Operation::MemPointerChase,
        op != Operation::MemRandomAccess,
    ensures
        operation_output(op, bufs, params).len() <= total_len(bufs),
{
    lemma_total_len_bounds(bufs);
    if op == Operation::MemScan && bufs.len() >= 1 && params.len() >= 1 {
        bufs[0].lemma_filter_len(|v: u32| v > params[0]);
    }
}

/// A scan keeps exactly the values above the threshold: each value it
/// returns is above it, and each value of the buffer above it is returned.
pub proof fn law_scan_keeps_values_above(a: Seq<u32>, threshold: u32)
    ensures
        forall|i: int|
            0 <= i < seq_scan(a, threshold).len() ==> #[trigger] seq_scan(a, threshold)[i]
                > threshold,
        forall|i: int|
            0 <= i < a.len() && a[i] > threshold ==> #[trigger] seq_scan(a, threshold).contains(
                a[i],
            ),
        seq_scan(a, threshold).len() <= a.len(),
{
    broadcast use vstd::seq_lib::group_filter_ensures;

    a.lemma_filter_len(|v: u32| v > threshold);
}

/// Vector addition, and and or do not depend on the order of their two
/// buffers.
pub proof fn law_vector_ops_commute(a: Seq<u32>, b: Seq<u32>, params: Seq<u32>)
    ensures
        operation_output(Operation::MemVecAdd, seq![a, b], params) == operation_output(
            Operation::MemVecAdd,
            seq![b, a],
            params,
        ),
        operation_output(Operation::MemVecAnd, seq![a, b], params) == operation_output(
            Operation::MemVecAnd,
            seq![b, a],
            params,
        ),
        operation_output(Operation::MemVecOr, seq![a, b], params) == operation_output(
            Operation::MemVecOr,
            seq![b, a],
            params,
        ),
{
    assert(seq_add(a, b) =~= seq_add(b, a));
    assert forall|i: int| 0 <= i < seq_and(a, b).len() implies #[trigger] seq_and(a, b)[i] == seq_and(
        b,
        a,
    )[i] by {
        let x = a[i];
        let y = b[i];
        assert(x & y == y & x) by (bit_vector);
    }
    assert(seq_and(a, b) =~= seq_and(b, a));
    assert forall|i: int| 0 <= i < seq_or(a, b).len() implies #[trigger] seq_or(a, b)[i] == seq_or(
        b,
        a,
    )[i] by {
        let x = a[i];
        let y = b[i];
        assert(x | y == y | x) by (bit_vector);
    }
    assert(seq_or(a, b) =~= seq_or(b, a));
}

/// A stride scan with stride 1 reads the buffer in order: it is a copy.
pub proof fn law_unit_stride_is_copy(bufs: Seq<Seq<u32>>, params: Seq<u32>)
    requires
        params.len() >= 1,
        params[0] == 1,
    ensures
        operation_output(Operation::MemStrideScan, bufs, params) == operation_output(
            Operation::MemCopy,
            bufs,
            params,
        ),
{
    if bufs.len() >= 1 {
        let a = bufs[0];
        assert forall|k: int| 0 <= k < a.len() implies #[trigger] seq_stride(a, 1)[k] == a[k] by {
            assert((k * 1) % (a.len() as int) == k) by (nonlinear_arith)
                requires
                    0 <= k < a.len(),
            ;
        }
        assert(seq_stride(a, 1) =~= a);
    }
}

/// Each step of a pointer chase reads the position that the value read
/// before it names, modulo the buffer's length; the chase starts at 0.
pub proof fn law_chase_follows_pointers(a: Seq<u32>, iterations: nat, j: int)
    requires
        a.len() >= 1,
        0 <= j,
        j + 1 < iterations,
    ensures
        seq_chase(a, iterations)[0] == a[0],
        seq_chase(a, iterations)[j + 1] == a[(seq_chase(a, iterations)[j] as int) % (
        a.len() as int)],
        0 <= chase_position(a, (j + 1) as nat) < a.len(),
{
    lemma_chase_in_bounds(a, j as nat);
    assert(chase_position(a, (j + 1) as nat) == (a[chase_position(a, j as nat)] as int) % (
    a.len() as int));
}

proof fn lemma_chase_in_bounds(a: Seq<u32>, j: nat)
    requires
        a.len() >= 1,
    ensures
        0 <= chase_position(a, j) < a.len(),
    decreases j,
{
    if j > 0 {
        lemma_chase_in_bounds(a, (j - 1) as nat);
    }
}

} // verus!
