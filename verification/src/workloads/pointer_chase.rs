//! The pointer-chase workload: every read depends on the value read before it.
use crate::engine::memory_engine::{
    chase_position, lemma_resolve_one, seq_chase, ExecutionMode, ExecutionResult, MemoryEngine,
};
use crate::engine::operations::Operation;
use vstd::prelude::*;

verus! {

/// The position after `k` in a cycle through `n` positions.
pub open spec fn succ_index(k: int, n: int) -> int {
    if k + 1 == n {
        0
    } else {
        k + 1
    }
}

/// `s` holds each of `0 .. n` exactly once.
pub open spec fn is_index_permutation(s: Seq<u32>, n: nat) -> bool {
    &&& s.len() == n
    &&& forall|i: int| 0 <= i < n ==> #[trigger] s[i] < n
    &&& forall|i: int, j: int| 0 <= i < n && 0 <= j < n && i != j ==> #[trigger] s[i] != #[trigger] s[j]
    &&& forall|v: int| 0 <= v < n ==> #[trigger] holds_value(s, n, v)
}

/// Some position of `s` below `n` holds `v`.
pub open spec fn holds_value(s: Seq<u32>, n: nat, v: int) -> bool {
    exists|i: int| 0 <= i < n && #[trigger] s[i] == v
}

/// `order` lists every position of `chain` once, and `chain` points from
/// each position in `order` to the one after it, the last back to the first.
pub open spec fn chain_order(chain: Seq<u32>, order: Seq<u32>) -> bool {
    &&& is_index_permutation(order, chain.len())
    &&& forall|k: int|
        0 <= k < chain.len() ==> chain[#[trigger] order[k] as int] == order[succ_index(
            k,
            chain.len() as int,
        )]
}

/// A pointer chain over `n` positions: each position points to exactly one
/// position and is pointed to by exactly one, and following the pointers
/// from any position visits every position before coming back, a single
/// cyclic linked list.
pub open spec fn is_pointer_chain(chain: Seq<u32>, n: nat) -> bool {
    &&& is_index_permutation(chain, n)
    &&& exists|order: Seq<u32>| #[trigger] chain_order(chain, order)
}

/// The position that element `i` of a chain of `size` elements made with
/// `seed` points to: `i * seed + 12345` modulo 2^32, modulo `size` (both
/// taken modulo 2^32 first).
pub open spec fn chain_target(i: int, size: usize, seed: u32) -> u32 {
    (((((i % 0x1_0000_0000) * seed) % 0x1_0000_0000 + 12345) % 0x1_0000_0000) % ((size as u32)
        as int)) as u32
}

/// Every element of a chain points inside the chain.
pub proof fn law_chain_targets_in_bounds(i: int, size: usize, seed: u32)
    requires
        size > 0,
        (size as u32) != 0,
    ensures
        chain_target(i, size, seed) < size,
{
    assert((size as u32) as usize <= size) by (bit_vector);
}

/// With seed 1, on sizes that leave 12345 one more than a multiple of the
/// size (2, 4, 8, 1543, 3086, 6172 and 12344), element `i` points to
/// `i + 1` and the last to 0: the chain is one cycle through every
/// position.
pub proof fn law_unit_seed_chain_is_single_cycle(size: usize)
    requires
        size > 0,
        size + 12345 <= 0x1_0000_0000,
        12345int % (size as int) == 1,
    ensures
        is_pointer_chain(Seq::new(size as nat, |i: int| chain_target(i, size, 1)), size as nat),
{
    let n = size as int;
    let chain = Seq::new(size as nat, |i: int| chain_target(i, size, 1));
    assert((size as u32) as int == n) by {
        assert(size < 0x1_0000_0000);
    }
    let q = 12345int / n;
    vstd::arithmetic::div_mod::lemma_fundamental_div_mod(12345int, n);
    assert forall|i: int| 0 <= i < n implies #[trigger] chain[i] == succ_index(i, n) by {
        assert(i % 0x1_0000_0000 == i) by {
            vstd::arithmetic::div_mod::lemma_small_mod(i as nat, 0x1_0000_0000);
        }
        assert((i * 1) % 0x1_0000_0000 == i) by {
            vstd::arithmetic::div_mod::lemma_small_mod(i as nat, 0x1_0000_0000);
        }
        assert((i + 12345) % 0x1_0000_0000 == i + 12345) by {
            vstd::arithmetic::div_mod::lemma_small_mod((i + 12345) as nat, 0x1_0000_0000);
        }
        assert(12345 == n * q + 1);
        assert((i + 12345) % n == (i + 1) % n) by {
            vstd::arithmetic::div_mod::lemma_mod_multiples_vanish(q, i + 1, n);
            assert(n * q + (i + 1) == i + 12345);
        }
        if i + 1 < n {
            vstd::arithmetic::div_mod::lemma_small_mod((i + 1) as nat, n as nat);
        } else {
            vstd::arithmetic::div_mod::lemma_mod_self_0(n);
        }
    }
    let order = Seq::new(size as nat, |k: int| k as u32);
    assert forall|v: int| 0 <= v < n implies #[trigger] holds_value(order, size as nat, v) by {
        assert(order[v] == v);
    }
    assert(is_index_permutation(order, size as nat));
    assert forall|k: int| 0 <= k < n implies chain[#[trigger] order[k] as int] == order[succ_index(k, n)] by {
        assert(chain[k] == succ_index(k, n));
    }
    assert(chain_order(chain, order));
    assert forall|i: int| 0 <= i < n implies #[trigger] chain[i] < n by {
        assert(chain[i] == succ_index(i, n));
    }
    assert forall|i: int, j: int| 0 <= i < n && 0 <= j < n && i != j implies #[trigger] chain[i]
        != #[trigger] chain[j] by {
        assert(chain[i] == succ_index(i, n));
        assert(chain[j] == succ_index(j, n));
    }
    assert forall|w: int| 0 <= w < n implies #[trigger] holds_value(chain, size as nat, w) by {
        let p = if w == 0 { n - 1 } else { w - 1 };
        assert(chain[p] == succ_index(p, n));
    }
}

/// The index in `order` of step `j` of a walk around a cycle of `n`
/// positions that starts at index `start`.
pub open spec fn walk_index(start: int, j: int, n: int) -> int {
    if start + j < n {
        start + j
    } else {
        start + j - n
    }
}

proof fn lemma_chase_walks_order(chain: Seq<u32>, order: Seq<u32>, start: int, j: int)
    requires
        chain_order(chain, order),
        0 <= start < chain.len(),
        order[start] == 0,
        0 <= j < chain.len(),
    ensures
        chase_position(chain, j as nat) == order[walk_index(start, j, chain.len() as int)],
    decreases j,
{
    let n = chain.len() as int;
    if j > 0 {
        lemma_chase_walks_order(chain, order, start, j - 1);
        let w = walk_index(start, j - 1, n);
        assert(succ_index(w, n) == walk_index(start, j, n));
        assert(chain[order[w] as int] == order[succ_index(w, n)]);
        let v = order[succ_index(w, n)] as int;
        assert(v < n);
        assert(chase_position(chain, j as nat) == (chain[chase_position(chain, (j - 1) as nat)] as int)
            % n);
        vstd::arithmetic::div_mod::lemma_small_mod(v as nat, n as nat);
    }
}

/// A pointer chase of `n` steps over a pointer chain of `n` positions reads
/// every position exactly once: no position is read twice, so none is
/// missed.
pub proof fn law_chase_visits_every_position(chain: Seq<u32>, n: nat)
    requires
        is_pointer_chain(chain, n),
    ensures
        forall|j: int| 0 <= j < n ==> 0 <= #[trigger] chase_position(chain, j as nat) < n,
        forall|j1: int, j2: int|
            0 <= j1 < n && 0 <= j2 < n && j1 != j2 ==> #[trigger] chase_position(chain, j1 as nat)
                != #[trigger] chase_position(chain, j2 as nat),
{
    if n > 0 {
        let order = choose|order: Seq<u32>| #[trigger] chain_order(chain, order);
        assert(holds_value(order, n, 0));
        let start = choose|i: int| 0 <= i < n && #[trigger] order[i] == 0;
        assert forall|j: int| 0 <= j < n implies 0 <= #[trigger] chase_position(chain, j as nat) < n by {
            lemma_chase_walks_order(chain, order, start, j);
            assert(order[walk_index(start, j, n as int)] < n);
        }
        assert forall|j1: int, j2: int|
            0 <= j1 < n && 0 <= j2 < n && j1 != j2 implies #[trigger] chase_position(chain, j1 as nat)
            != #[trigger] chase_position(chain, j2 as nat) by {
            lemma_chase_walks_order(chain, order, start, j1);
            lemma_chase_walks_order(chain, order, start, j2);
            let w1 = walk_index(start, j1, n as int);
            let w2 = walk_index(start, j2, n as int);
            assert(w1 != w2);
            assert(order[w1] != order[w2]);
        }
    }
}

/// A pointer chase of a fixed number of steps.
pub struct PointerChase {
    pub iterations: usize,
}

impl PointerChase {
    pub fn new(iterations: usize) -> (chase: Self)
        ensures
            chase.iterations == iterations,
    {
        PointerChase { iterations }
    }

    /// Allocates a buffer of `size` elements in which element `i` points to
    /// [`chain_target`]`(i, size, seed)`, a pseudo-random next position, and
    /// returns its index.
    ///
    /// The buffer is meant as a pointer chain, a pseudo-random permutation
    /// that links the positions into one list. The formula gives that only
    /// for some sizes and seeds (see [`law_unit_seed_chain_is_single_cycle`]);
    /// size 4 with seed 2, for one, gives `[1, 3, 1, 3]`, which is no
    /// permutation. Every element points inside the buffer
    /// ([`law_chain_targets_in_bounds`]).
    pub fn init_pointer_chain(engine: &mut MemoryEngine, size: usize, seed: u32) -> (buf: usize)
        requires
            4 * size <= isize::MAX,
            old(engine)@.len() < usize::MAX,
            size > 0 ==> (size as u32) != 0,
        ensures
            buf == old(engine)@.len(),
            final(engine)@ == old(engine)@.push(
                Seq::new(size as nat, |i: int| chain_target(i, size, seed)),
            ),
    {
        let buf = engine.allocate_buffer(size, 0);
        match engine.get_buffer_mut(buf) {
            Some(buf_data) => {
                for i in 0..size
                    invariant
                        buf_data@.len() == size,
                        size > 0 ==> (size as u32) != 0,
                        forall|k: int| 0 <= k < i ==> buf_data@[k] == chain_target(k, size, seed),
                {
                    let next = (i as u32).wrapping_mul(seed).wrapping_add(12345) % (size as u32);
                    assert(next == chain_target(i as int, size, seed)) by {
                        assert((i as u32) as int == (i as int) % 0x1_0000_0000) by (bit_vector);
                    }
                    buf_data[i] = next;
                }
                assert(buf_data@ =~= Seq::new(size as nat, |i: int| chain_target(i, size, seed)));
            },
            None => {},
        }
        assert(engine@ =~= old(engine)@.push(
            Seq::new(size as nat, |i: int| chain_target(i, size, seed)),
        ));
        buf
    }

    /// The data a chase of the buffer at `buffer`, with the iteration count
    /// taken modulo 2^32, produces; nothing when there is no such buffer.
    pub open spec fn chase_output(&self, engine: Seq<Seq<u32>>, buffer: usize) -> Seq<u32> {
        if buffer < engine.len() {
            seq_chase(engine[buffer as int], (self.iterations as u32) as nat)
        } else {
            Seq::empty()
        }
    }

    /// The inputs on which a chase runs: the buffer's bytes fit in a `u64`,
    /// and a chase that reads at all reads a non-empty buffer.
    pub open spec fn chase_defined(&self, engine: Seq<Seq<u32>>, buffer: usize) -> bool {
        buffer < engine.len() ==> {
            &&& 4 * engine[buffer as int].len() <= u64::MAX
            &&& (self.iterations as u32) > 0 ==> engine[buffer as int].len() >= 1
        }
    }

    /// Chases pointers through the buffer at `buffer` on the CPU.
    pub fn execute_cpu(&self, engine: &MemoryEngine, buffer: usize) -> (r: ExecutionResult)
        requires
            self.chase_defined(engine@, buffer),
        ensures
            r.data@ == self.chase_output(engine@, buffer),
            r.stats.memory_access == (if buffer < engine@.len() {
                4 * engine@[buffer as int].len()
            } else {
                0
            }),
            r.stats.data_moved == 4 * r.data@.len(),
            crate::timing::is_cycle_estimate(r.stats.cycles),
            r.execution_mode == ExecutionMode::CPU,
    {
        proof {
            lemma_resolve_one(engine@, buffer);
        }
        let indices = [buffer];
        let params = [self.iterations as u32];
        assert(indices@ =~= seq![buffer]);
        assert(params@ =~= seq![self.iterations as u32]);
        engine.execute_cpu(Operation::MemPointerChase, &indices, &params)
    }

    /// Chases pointers through the buffer at `buffer` at the memory engine.
    pub fn execute_memory_engine(&self, engine: &MemoryEngine, buffer: usize) -> (r:
        ExecutionResult)
        requires
            self.chase_defined(engine@, buffer),
        ensures
            r.data@ == self.chase_output(engine@, buffer),
            r.stats.memory_access == (if buffer < engine@.len() {
                4 * engine@[buffer as int].len()
            } else {
                0
            }),
            r.stats.data_moved == 4 * r.data@.len(),
            crate::timing::is_cycle_estimate(r.stats.cycles),
            r.execution_mode == ExecutionMode::MemoryEngine,
    {
        proof {
            lemma_resolve_one(engine@, buffer);
        }
        let indices = [buffer];
        let params = [self.iterations as u32];
        assert(indices@ =~= seq![buffer]);
        assert(params@ =~= seq![self.iterations as u32]);
        engine.execute_memory_engine(Operation::MemPointerChase, &indices, &params)
    }
}

} // verus!
