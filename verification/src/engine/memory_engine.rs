//! The memory engine: a set of `u32` buffers, and the operations that run on
//! them either on the CPU or "at memory". Both modes compute the same data; they
//! differ only in the mode they report and in the cycles that the clock gives.
use super::operations::Operation;
use crate::timing;
use crate::OperationStats;
use vstd::prelude::*;

verus! {

/// A set of `u32` buffers, each named by the index at which it was allocated.
pub struct MemoryEngine {
    buffers: Vec<Vec<u32>>,
}

/// The data an operation produced, what it cost, and where it ran.
#[derive(Debug, Clone)]
pub struct ExecutionResult {
    pub data: Vec<u32>,
    pub stats: OperationStats,
    pub execution_mode: ExecutionMode,
}

/// Where an operation ran.
#[derive(Debug, Clone, Copy, PartialEq, Eq, Structural)]
pub enum ExecutionMode {
    CPU,
    MemoryEngine,
}

impl View for MemoryEngine {
    type V = Seq<Seq<u32>>;

    /// The contents of the buffers, in allocation order.
    closed spec fn view(&self) -> Seq<Seq<u32>> {
        self.buffers@.map_values(|b: Vec<u32>| b@)
    }
}

/// The buffers that `indices` names, in order; an index that names no buffer
/// is skipped.
pub open spec fn resolve(buffers: Seq<Seq<u32>>, indices: Seq<usize>) -> Seq<Seq<u32>> {
    indices.filter_map(|i: usize| if i < buffers.len() { Some(buffers[i as int]) } else { None })
}

/// The number of elements in all of `bufs` together.
pub open spec fn total_len(bufs: Seq<Seq<u32>>) -> nat
    decreases bufs.len(),
{
    if bufs.len() == 0 {
        0
    } else {
        total_len(bufs.drop_last()) + bufs.last().len()
    }
}

/// `x + y` modulo 2^32.
pub open spec fn add_mod32(x: u32, y: u32) -> u32 {
    ((x + y) % 0x1_0000_0000) as u32
}

/// The element-wise sum, modulo 2^32, of the common prefix of `a` and `b`.
pub open spec fn seq_add(a: Seq<u32>, b: Seq<u32>) -> Seq<u32> {
    Seq::new(vstd::math::min(a.len() as int, b.len() as int) as nat, |i: int| add_mod32(a[i], b[i]))
}

/// The element-wise bitwise and of the common prefix of `a` and `b`.
pub open spec fn seq_and(a: Seq<u32>, b: Seq<u32>) -> Seq<u32> {
    Seq::new(vstd::math::min(a.len() as int, b.len() as int) as nat, |i: int| a[i] & b[i])
}

/// The element-wise bitwise or of the common prefix of `a` and `b`.
pub open spec fn seq_or(a: Seq<u32>, b: Seq<u32>) -> Seq<u32> {
    Seq::new(vstd::math::min(a.len() as int, b.len() as int) as nat, |i: int| a[i] | b[i])
}

/// The elements of `a` above `threshold`, in order.
pub open spec fn seq_scan(a: Seq<u32>, threshold: u32) -> Seq<u32> {
    a.filter(|v: u32| v > threshold)
}

/// `a.len()` reads of `a`, the `k`-th at position `k * stride` modulo the length.
pub open spec fn seq_stride(a: Seq<u32>, stride: nat) -> Seq<u32> {
    Seq::new(a.len(), |k: int| a[(k * stride) % (a.len() as int)])
}

/// The position that the `j`-th read of a pointer chase over `a` reads: the
/// chase starts at 0 and moves to the value read, modulo the length.
pub open spec fn chase_position(a: Seq<u32>, j: nat) -> int
    decreases j,
{
    if j == 0 {
        0
    } else {
        (a[chase_position(a, (j - 1) as nat)] as int) % (a.len() as int)
    }
}

/// The values that `iterations` steps of a pointer chase over `a` read.
pub open spec fn seq_chase(a: Seq<u32>, iterations: nat) -> Seq<u32> {
    Seq::new(iterations, |j: int| a[chase_position(a, j as nat)])
}

/// `iterations` independent reads of `a`: the `i`-th reads the position that
/// `a` holds at `i` modulo the length, again modulo the length.
pub open spec fn seq_random(a: Seq<u32>, iterations: nat) -> Seq<u32> {
    Seq::new(
        iterations,
        |i: int| a[(a[i % (a.len() as int)] as int) % (a.len() as int)],
    )
}

/// The data that `op` produces from the buffers `bufs` and the parameters
/// `params`. An operation that lacks a buffer or a parameter produces nothing.
pub open spec fn operation_output(op: Operation, bufs: Seq<Seq<u32>>, params: Seq<u32>) -> Seq<
    u32,
> {
    match op {
        Operation::MemCopy => if bufs.len() >= 1 {
            bufs[0]
        } else {
            Seq::empty()
        },
        Operation::MemVecAdd => if bufs.len() >= 2 {
            seq_add(bufs[0], bufs[1])
        } else {
            Seq::empty()
        },
        Operation::MemVecAnd => if bufs.len() >= 2 {
            seq_and(bufs[0], bufs[1])
        } else {
            Seq::empty()
        },
        Operation::MemVecOr => if bufs.len() >= 2 {
            seq_or(bufs[0], bufs[1])
        } else {
            Seq::empty()
        },
        Operation::MemScan => if bufs.len() >= 1 && params.len() >= 1 {
            seq_scan(bufs[0], params[0])
        } else {
            Seq::empty()
        },
        Operation::MemStrideScan => if bufs.len() >= 1 && params.len() >= 1 {
            seq_stride(bufs[0], params[0] as nat)
        } else {
            Seq::empty()
        },
        Operation::MemPointerChase => if bufs.len() >= 1 && params.len() >= 1 {
            seq_chase(bufs[0], params[0] as nat)
        } else {
            Seq::empty()
        },
        Operation::MemRandomAccess => if bufs.len() >= 1 && params.len() >= 1 {
            seq_random(bufs[0], params[0] as nat)
        } else {
            Seq::empty()
        },
    }
}

/// The inputs on which `op` runs to its end: the bytes it reads fit in a
/// `u64`, a stride scan computes no position beyond `usize`, and a pointer
/// chase or a random access that reads at all reads from a non-empty buffer.
pub open spec fn operation_defined(op: Operation, bufs: Seq<Seq<u32>>, params: Seq<u32>) -> bool {
    &&& 4 * total_len(bufs) <= u64::MAX
    &&& (op == Operation::MemStrideScan && bufs.len() >= 1 && params.len() >= 1 && bufs[0].len()
        >= 1) ==> (bufs[0].len() - 1) * params[0] <= usize::MAX
    &&& ((op == Operation::MemPointerChase || op == Operation::MemRandomAccess) && bufs.len() >= 1
        && params.len() >= 1 && params[0] > 0) ==> bufs[0].len() >= 1
}

/// One index resolves to its buffer, or to nothing when it names none.
pub proof fn lemma_resolve_one(buffers: Seq<Seq<u32>>, i: usize)
    ensures
        resolve(buffers, seq![i]) == (if i < buffers.len() {
            seq![buffers[i as int]]
        } else {
            Seq::<Seq<u32>>::empty()
        }),
        total_len(resolve(buffers, seq![i])) == (if i < buffers.len() {
            buffers[i as int].len()
        } else {
            0
        }),
{
    let s = seq![i];
    assert(s.drop_last() =~= Seq::<usize>::empty());
    assert(s.last() == i);
    assert(resolve(buffers, Seq::<usize>::empty()) =~= Seq::<Seq<u32>>::empty());
    assert(resolve(buffers, s.drop_last()) =~= Seq::<Seq<u32>>::empty());
    let r = resolve(buffers, s);
    if i < buffers.len() {
        assert(r =~= seq![buffers[i as int]]);
        assert(r.drop_last() =~= Seq::<Seq<u32>>::empty());
        assert(total_len(r.drop_last()) == 0);
    } else {
        assert(r =~= Seq::<Seq<u32>>::empty());
    }
}

/// The elements of the buffer at `i`, or 0 when `i` names no buffer.
pub open spec fn named_len(buffers: Seq<Seq<u32>>, i: usize) -> nat {
    if i < buffers.len() {
        buffers[i as int].len()
    } else {
        0
    }
}

/// Two indices resolve to the buffers that they name, in order.
pub proof fn lemma_resolve_two(buffers: Seq<Seq<u32>>, i: usize, j: usize)
    ensures
        i < buffers.len() && j < buffers.len() ==> resolve(buffers, seq![i, j]) == seq![
            buffers[i as int],
            buffers[j as int],
        ],
        !(i < buffers.len() && j < buffers.len()) ==> resolve(buffers, seq![i, j]).len() <= 1,
        total_len(resolve(buffers, seq![i, j])) == named_len(buffers, i) + named_len(buffers, j),
{
    let s = seq![i, j];
    assert(s.drop_last() =~= seq![i]);
    assert(s.last() == j);
    lemma_resolve_one(buffers, i);
    let r = resolve(buffers, s);
    let r1 = resolve(buffers, seq![i]);
    if j < buffers.len() {
        assert(r =~= r1.push(buffers[j as int]));
        assert(r.drop_last() =~= r1);
    } else {
        assert(r =~= r1);
    }
}

/// A `total_len` of a prefix of the resolved buffers never exceeds that of
/// all of them.
proof fn lemma_resolve_prefix_total(buffers: Seq<Seq<u32>>, indices: Seq<usize>, i: int)
    requires
        0 <= i <= indices.len(),
    ensures
        total_len(resolve(buffers, indices.take(i))) <= total_len(resolve(buffers, indices)),
    decreases indices.len() - i,
{
    if i < indices.len() {
        lemma_resolve_prefix_total(buffers, indices, i + 1);
        let s = indices.take(i + 1);
        assert(s.drop_last() =~= indices.take(i));
        let r = resolve(buffers, s);
        if s.last() < buffers.len() {
            assert(r.drop_last() =~= resolve(buffers, indices.take(i)));
        } else {
            assert(r =~= resolve(buffers, indices.take(i)));
        }
    } else {
        assert(indices.take(i) =~= indices);
    }
}

/// The first element of the resolved buffers has length at most their total.
pub proof fn lemma_total_len_bounds(bufs: Seq<Seq<u32>>)
    ensures
        bufs.len() >= 1 ==> bufs[0].len() <= total_len(bufs),
        bufs.len() >= 2 ==> bufs[0].len() + bufs[1].len() <= total_len(bufs),
    decreases bufs.len(),
{
    if bufs.len() > 0 {
        lemma_total_len_bounds(bufs.drop_last());
        if bufs.len() == 2 {
            assert(bufs.drop_last().drop_last() =~= Seq::<Seq<u32>>::empty());
        }
    }
}

fn copy_buffer(a: &Vec<u32>) -> (r: Vec<u32>)
    ensures
        r@ == a@,
{
    let mut r: Vec<u32> = Vec::new();
    let n = a.len();
    for i in 0..n
        invariant
            n == a.len(),
            r@ == a@.take(i as int),
    {
        r.push(a[i]);
        assert(a@.take(i + 1) =~= a@.take(i as int).push(a[i as int]));
    }
    assert(a@.take(n as int) =~= a@);
    r
}

fn add_buffers(a: &Vec<u32>, b: &Vec<u32>) -> (r: Vec<u32>)
    ensures
        r@ == seq_add(a@, b@),
{
    let n = if a.len() < b.len() {
        a.len()
    } else {
        b.len()
    };
    let mut r: Vec<u32> = Vec::new();
    for i in 0..n
        invariant
            n <= a.len(),
            n <= b.len(),
            r@ =~= seq_add(a@, b@).take(i as int),
            n == vstd::math::min(a.len() as int, b.len() as int),
    {
        let x = a[i];
        let y = b[i];
        let s = x.wrapping_add(y);
        assert(s == add_mod32(x, y));
        r.push(s);
        assert(seq_add(a@, b@).take(i + 1) =~= seq_add(a@, b@).take(i as int).push(s));
    }
    r
}

fn and_buffers(a: &Vec<u32>, b: &Vec<u32>) -> (r: Vec<u32>)
    ensures
        r@ == seq_and(a@, b@),
{
    let n = if a.len() < b.len() {
        a.len()
    } else {
        b.len()
    };
    let mut r: Vec<u32> = Vec::new();
    for i in 0..n
        invariant
            n <= a.len(),
            n <= b.len(),
            r@ =~= seq_and(a@, b@).take(i as int),
            n == vstd::math::min(a.len() as int, b.len() as int),
    {
        let s = a[i] & b[i];
        r.push(s);
        assert(seq_and(a@, b@).take(i + 1) =~= seq_and(a@, b@).take(i as int).push(s));
    }
    r
}

fn or_buffers(a: &Vec<u32>, b: &Vec<u32>) -> (r: Vec<u32>)
    ensures
        r@ == seq_or(a@, b@),
{
    let n = if a.len() < b.len() {
        a.len()
    } else {
        b.len()
    };
    let mut r: Vec<u32> = Vec::new();
    for i in 0..n
        invariant
            n <= a.len(),
            n <= b.len(),
            r@ =~= seq_or(a@, b@).take(i as int),
            n == vstd::math::min(a.len() as int, b.len() as int),
    {
        let s = a[i] | b[i];
        r.push(s);
        assert(seq_or(a@, b@).take(i + 1) =~= seq_or(a@, b@).take(i as int).push(s));
    }
    r
}

fn scan_buffer(a: &Vec<u32>, threshold: u32) -> (r: Vec<u32>)
    ensures
        r@ == seq_scan(a@, threshold),
{
    let mut r: Vec<u32> = Vec::new();
    let n = a.len();
    for i in 0..n
        invariant
            n == a.len(),
            r@ == seq_scan(a@.take(i as int), threshold),
    {
        let v = a[i];
        proof {
            let pre = a@.take(i + 1);
            assert(pre.drop_last() =~= a@.take(i as int));
            assert(pre.last() == v);
            reveal_with_fuel(Seq::filter, 1);
        }
        if v > threshold {
            r.push(v);
        }
    }
    assert(a@.take(n as int) =~= a@);
    r
}

fn stride_scan_buffer(a: &Vec<u32>, stride: usize) -> (r: Vec<u32>)
    requires
        a.len() >= 1 ==> (a.len() - 1) * stride <= usize::MAX,
    ensures
        r@ == seq_stride(a@, stride as nat),
{
    let n = a.len();
    let mut r: Vec<u32> = Vec::new();
    for k in 0..n
        invariant
            n == a.len(),
            n >= 1 ==> (n - 1) * stride <= usize::MAX,
            r@ =~= seq_stride(a@, stride as nat).take(k as int),
    {
        assert(k * stride <= (n - 1) * stride) by (nonlinear_arith)
            requires
                k <= n - 1,
        ;
        let idx = (k * stride) % n;
        let v = a[idx];
        r.push(v);
        assert(seq_stride(a@, stride as nat).take(k + 1) =~= seq_stride(a@, stride as nat).take(
            k as int,
        ).push(v));
    }
    assert(seq_stride(a@, stride as nat).take(n as int) =~= seq_stride(a@, stride as nat));
    r
}

fn pointer_chase_buffer(a: &Vec<u32>, iterations: usize) -> (r: Vec<u32>)
    requires
        iterations > 0 ==> a.len() >= 1,
    ensures
        r@ == seq_chase(a@, iterations as nat),
{
    let n = a.len();
    let mut r: Vec<u32> = Vec::new();
    let mut idx: usize = 0;
    for j in 0..iterations
        invariant
            n == a.len(),
            iterations > 0 ==> n >= 1,
            idx == chase_position(a@, j as nat),
            idx < n || j == iterations,
            r@ =~= seq_chase(a@, iterations as nat).take(j as int),
    {
        let val = a[idx];
        r.push(val);
        assert(seq_chase(a@, iterations as nat).take(j + 1) =~= seq_chase(
            a@,
            iterations as nat,
        ).take(j as int).push(val));
        idx = (val as usize) % n;
        assert(idx == chase_position(a@, (j + 1) as nat));
    }
    assert(seq_chase(a@, iterations as nat).take(iterations as int) =~= seq_chase(
        a@,
        iterations as nat,
    ));
    r
}

fn random_access_buffer(a: &Vec<u32>, iterations: usize) -> (r: Vec<u32>)
    requires
        iterations > 0 ==> a.len() >= 1,
    ensures
        r@ == seq_random(a@, iterations as nat),
{
    let n = a.len();
    let mut r: Vec<u32> = Vec::new();
    for i in 0..iterations
        invariant
            n == a.len(),
            iterations > 0 ==> n >= 1,
            r@ =~= seq_random(a@, iterations as nat).take(i as int),
    {
        let idx = (a[i % n] as usize) % n;
        let v = a[idx];
        r.push(v);
        assert(seq_random(a@, iterations as nat).take(i + 1) =~= seq_random(
            a@,
            iterations as nat,
        ).take(i as int).push(v));
    }
    assert(seq_random(a@, iterations as nat).take(iterations as int) =~= seq_random(
        a@,
        iterations as nat,
    ));
    r
}

impl MemoryEngine {
    /// An engine with no buffers.
    pub fn new() -> (engine: Self)
        ensures
            engine@ == Seq::<Seq<u32>>::empty(),
    {
        let engine = MemoryEngine { buffers: Vec::new() };
        assert(engine@ =~= Seq::<Seq<u32>>::empty());
        engine
    }

    /// Allocates a buffer of `size` copies of `value` and returns its index.
    pub fn allocate_buffer(&mut self, size: usize, value: u32) -> (idx: usize)
        requires
            4 * size <= isize::MAX,
            old(self)@.len() < usize::MAX,
        ensures
            idx == old(self)@.len(),
            final(self)@ == old(self)@.push(Seq::new(size as nat, |i: int| value)),
    {
        let buffer = vec![value; size];
        assert(buffer@ =~= Seq::new(size as nat, |i: int| value));
        self.buffers.push(buffer);
        assert(self@ =~= old(self)@.push(Seq::new(size as nat, |i: int| value)));
        self.buffers.len() - 1
    }

    /// The buffer at `idx`, if there is one.
    pub fn get_buffer(&self, idx: usize) -> (buf: Option<&[u32]>)
        ensures
            buf is Some <==> idx < self@.len(),
            buf matches Some(b) ==> b@ == self@[idx as int],
    {
        if idx < self.buffers.len() {
            Some(self.buffers[idx].as_slice())
        } else {
            None
        }
    }

    /// The buffer at `idx`, if there is one, for writing in place.
    pub fn get_buffer_mut(&mut self, idx: usize) -> (buf: Option<&mut [u32]>)
        ensures
            buf is Some <==> idx < old(self)@.len(),
            buf is None ==> final(self)@ == old(self)@,
            buf matches Some(b) ==> b@ == old(self)@[idx as int],
            buf matches Some(b) ==> final(self)@ == old(self)@.update(idx as int, final(b)@),
    {
        if idx < self.buffers.len() {
            Some(self.buffers[idx].as_mut_slice())
        } else {
            None
        }
    }

    /// The buffers that `indices` names (see [`resolve`]), and the total
    /// number of their elements.
    fn resolve_indices(&self, indices: &[usize]) -> (res: (Vec<usize>, u64))
        requires
            4 * total_len(resolve(self@, indices@)) <= u64::MAX,
        ensures
            res.0@.len() == resolve(self@, indices@).len(),
            forall|k: int|
                0 <= k < res.0@.len() ==> #[trigger] res.0@[k] < self@.len() && self@[res.0@[k] as int]
                    == resolve(self@, indices@)[k],
            res.1 == total_len(resolve(self@, indices@)),
    {
        let mut found: Vec<usize> = Vec::new();
        let mut total: u64 = 0;
        let n = indices.len();
        for i in 0..n
            invariant
                n == indices@.len(),
                self.buffers@.len() == self@.len(),
                4 * total_len(resolve(self@, indices@)) <= u64::MAX,
                found@.len() == resolve(self@, indices@.take(i as int)).len(),
                forall|k: int|
                    0 <= k < found@.len() ==> #[trigger] found@[k] < self@.len() && self@[found@[k] as int]
                        == resolve(self@, indices@.take(i as int))[k],
                total == total_len(resolve(self@, indices@.take(i as int))),
        {
            let idx = indices[i];
            proof {
                let pre = indices@.take(i + 1);
                assert(pre.drop_last() =~= indices@.take(i as int));
                assert(pre.last() == idx);
                lemma_resolve_prefix_total(self@, indices@, i + 1);
            }
            if idx < self.buffers.len() {
                let len = self.buffers[idx].len();
                proof {
                    let r = resolve(self@, indices@.take(i + 1));
                    assert(r.drop_last() == resolve(self@, indices@.take(i as int)));
                    assert(r.last() == self@[idx as int]);
                    assert(self@[idx as int].len() == len);
                }
                total = total + len as u64;
                found.push(idx);
            }
        }
        assert(indices@.take(n as int) =~= indices@);
        (found, total)
    }

    /// Whether `operation` runs to its end on these buffers and parameters:
    /// tests [`operation_defined`].
    pub fn can_execute(&self, operation: Operation, buffer_indices: &[usize], params: &[u32]) -> (ok:
        bool)
        ensures
            ok == operation_defined(operation, resolve(self@, buffer_indices@), params@),
    {
        let bound: u64 = u64::MAX / 4;
        let mut total: u64 = 0;
        let n = buffer_indices.len();
        for i in 0..n
            invariant
                n == buffer_indices@.len(),
                self.buffers@.len() == self@.len(),
                bound == u64::MAX / 4,
                total == total_len(resolve(self@, buffer_indices@.take(i as int))),
                total <= bound,
        {
            let idx = buffer_indices[i];
            proof {
                let pre = buffer_indices@.take(i + 1);
                assert(pre.drop_last() =~= buffer_indices@.take(i as int));
                assert(pre.last() == idx);
                lemma_resolve_prefix_total(self@, buffer_indices@, i + 1);
            }
            if idx < self.buffers.len() {
                let len = self.buffers[idx].len() as u64;
                proof {
                    let r = resolve(self@, buffer_indices@.take(i + 1));
                    assert(r.drop_last() == resolve(self@, buffer_indices@.take(i as int)));
                    assert(r.last() == self@[idx as int]);
                }
                if len > bound - total {
                    return false;
                }
                total = total + len;
            }
        }
        assert(buffer_indices@.take(n as int) =~= buffer_indices@);
        let ghost bufs = resolve(self@, buffer_indices@);
        let (found, _) = self.resolve_indices(buffer_indices);
        if found.len() == 0 || params.len() == 0 {
            return true;
        }
        let first_len = self.buffers[found[0]].len();
        assert(self@[found@[0] as int] == bufs[0]);
        match operation {
            Operation::MemStrideScan => {
                if first_len == 0 {
                    true
                } else {
                    (first_len - 1).checked_mul(params[0] as usize).is_some()
                }
            },
            Operation::MemPointerChase | Operation::MemRandomAccess => {
                params[0] == 0 || first_len >= 1
            },
            _ => true,
        }
    }

    /// Runs `operation`: the data it produces and the number of elements it reads.
    fn run(&self, operation: Operation, buffer_indices: &[usize], params: &[u32]) -> (res: (
        Vec<u32>,
        u64,
    ))
        requires
            operation_defined(operation, resolve(self@, buffer_indices@), params@),
        ensures
            res.0@ == operation_output(operation, resolve(self@, buffer_indices@), params@),
            res.1 == total_len(resolve(self@, buffer_indices@)),
            res.0@.len() <= u64::MAX / 4,
    {
        let ghost bufs = resolve(self@, buffer_indices@);
        let (found, total) = self.resolve_indices(buffer_indices);
        proof {
            lemma_total_len_bounds(bufs);
            if found@.len() >= 1 {
                assert(self.buffers@[found@[0] as int]@ == bufs[0]);
            }
            if found@.len() >= 2 {
                assert(self.buffers@[found@[1] as int]@ == bufs[1]);
            }
        }
        let data = match operation {
            Operation::MemCopy => {
                if found.len() >= 1 {
                    copy_buffer(&self.buffers[found[0]])
                } else {
                    Vec::new()
                }
            },
            Operation::MemVecAdd => {
                if found.len() >= 2 {
                    add_buffers(&self.buffers[found[0]], &self.buffers[found[1]])
                } else {
                    Vec::new()
                }
            },
            Operation::MemVecAnd => {
                if found.len() >= 2 {
                    and_buffers(&self.buffers[found[0]], &self.buffers[found[1]])
                } else {
                    Vec::new()
                }
            },
            Operation::MemVecOr => {
                if found.len() >= 2 {
                    or_buffers(&self.buffers[found[0]], &self.buffers[found[1]])
                } else {
                    Vec::new()
                }
            },
            Operation::MemScan => {
                if found.len() >= 1 && params.len() >= 1 {
                    scan_buffer(&self.buffers[found[0]], params[0])
                } else {
                    Vec::new()
                }
            },
            Operation::MemStrideScan => {
                if found.len() >= 1 && params.len() >= 1 {
                    stride_scan_buffer(&self.buffers[found[0]], params[0] as usize)
                } else {
                    Vec::new()
                }
            },
            Operation::MemPointerChase => {
                if found.len() >= 1 && params.len() >= 1 {
                    pointer_chase_buffer(&self.buffers[found[0]], params[0] as usize)
                } else {
                    Vec::new()
                }
            },
            Operation::MemRandomAccess => {
                if found.len() >= 1 && params.len() >= 1 {
                    random_access_buffer(&self.buffers[found[0]], params[0] as usize)
                } else {
                    Vec::new()
                }
            },
        };
        proof {
            if found@.len() >= 1 {
                let a = bufs[0];
                assert(seq_scan(a, params@[0]).len() <= a.len()) by {
                    a.lemma_filter_len(|v: u32| v > params@[0]);
                }
            }
        }
        (data, total)
    }

    /// Runs `operation` on the CPU over the buffers that `buffer_indices`
    /// names (an index naming no buffer is skipped) with `params`.
    ///
    /// The data is that of [`operation_output`]; `memory_access` counts the
    /// bytes of every named buffer and `data_moved` the bytes of the data.
    /// The cycles are estimated from the time the run took, which the clock
    /// decides.
    pub fn execute_cpu(&self, operation: Operation, buffer_indices: &[usize], params: &[u32]) -> (r:
        ExecutionResult)
        requires
            operation_defined(operation, resolve(self@, buffer_indices@), params@),
        ensures
            r.data@ == operation_output(operation, resolve(self@, buffer_indices@), params@),
            r.stats.memory_access == 4 * total_len(resolve(self@, buffer_indices@)),
            r.stats.data_moved == 4 * r.data@.len(),
            timing::is_cycle_estimate(r.stats.cycles),
            r.execution_mode == ExecutionMode::CPU,
    {
        let start = timing::instant_now();
        let (data, total) = self.run(operation, buffer_indices, params);
        let nanos = timing::nanos_since(&start);
        let cycles = timing::cycles_from_nanos(nanos);
        assert(cycles == timing::spec_cycles_from_nanos(nanos));
        let data_moved = data.len() as u64 * 4;
        ExecutionResult {
            data,
            stats: OperationStats { cycles, memory_access: total * 4, data_moved },
            execution_mode: ExecutionMode::CPU,
        }
    }

    /// Runs `operation` at the memory engine: the same data and the same byte
    /// counts as [`MemoryEngine::execute_cpu`]; only the results flow back.
    pub fn execute_memory_engine(
        &self,
        operation: Operation,
        buffer_indices: &[usize],
        params: &[u32],
    ) -> (r: ExecutionResult)
        requires
            operation_defined(operation, resolve(self@, buffer_indices@), params@),
        ensures
            r.data@ == operation_output(operation, resolve(self@, buffer_indices@), params@),
            r.stats.memory_access == 4 * total_len(resolve(self@, buffer_indices@)),
            r.stats.data_moved == 4 * r.data@.len(),
            timing::is_cycle_estimate(r.stats.cycles),
            r.execution_mode == ExecutionMode::MemoryEngine,
    {
        let start = timing::instant_now();
        let (data, total) = self.run(operation, buffer_indices, params);
        let nanos = timing::nanos_since(&start);
        let cycles = timing::cycles_from_nanos(nanos);
        assert(cycles == timing::spec_cycles_from_nanos(nanos));
        let data_moved = data.len() as u64 * 4;
        ExecutionResult {
            data,
            stats: OperationStats { cycles, memory_access: total * 4, data_moved },
            execution_mode: ExecutionMode::MemoryEngine,
        }
    }
}

impl Default for MemoryEngine {
    /// An engine with no buffers.
    fn default() -> (engine: Self)
        ensures
            engine@ == Seq::<Seq<u32>>::empty(),
    {
        Self::new()
    }
}

} // verus!
