//! Pool-wide laws, stated over the free-list model that the pool contracts
//! speak of and proved once and for all.

use crate::bounded::BoundedPool;
use crate::free_list::arena_chunks;
use crate::unbounded::UnboundedPool;
use crate::{chunk_end, chunk_start, Block};
use vstd::multiset::Multiset;
use vstd::prelude::*;
use vstd::seq_lib::lemma_multiset_commutative;

verus! {

/// Draining order: each successful allocation pops the head, so after `k`
/// of them the free list is `free.skip(k)`, the `(k + 1)`-th allocation
/// serves entry `k` of the original list, and one more pop steps from
/// `free.skip(k)` to `free.skip(k + 1)`.
pub proof fn lemma_drain_order(free: Seq<usize>, k: nat)
    requires
        k < free.len(),
    ensures
        free.skip(k as int).len() == free.len() - k,
        free.skip(k as int)[0] == free[k as int],
        free.skip(k as int).drop_first() == free.skip(k as int + 1),
{
    assert(free.skip(k as int).drop_first() =~= free.skip(k as int + 1));
}

/// Capacity law: a bounded pool built with `n` chunks starts with the free
/// list `arena_chunks(0, n)` of length `n`; each successful allocation
/// removes exactly the head, so each of the first `n` allocations finds a
/// non-empty free list, and after `n` of them — with no intervening
/// deallocation — the list is empty and the `(n + 1)`-th request fails.
pub proof fn lemma_bounded_capacity(n: nat, k: nat)
    requires
        k <= n,
        n <= usize::MAX,
    ensures
        arena_chunks(0, n).len() == n,
        arena_chunks(0, n).skip(k as int).len() == n - k,
        k < n ==> arena_chunks(0, n).skip(k as int).len() > 0 && arena_chunks(0, n).skip(
            k as int,
        )[0] == k,
        k == n ==> arena_chunks(0, n).skip(k as int).len() == 0,
{
    if k < n {
        lemma_drain_order(arena_chunks(0, n), k);
    }
}

/// The free list that results from pushing the blocks of `blocks` back, in
/// order, onto the free list `free`: each deallocation makes its block the
/// new head.
pub open spec fn pushed_all(free: Seq<usize>, blocks: Seq<usize>) -> Seq<usize>
    decreases blocks.len(),
{
    if blocks.len() == 0 {
        free
    } else {
        pushed_all(seq![blocks[0]] + free, blocks.drop_first())
    }
}

/// Pushing blocks back loses none and invents none: the resulting free list
/// holds exactly the old free chunks and the pushed blocks.
pub proof fn lemma_pushed_all_multiset(free: Seq<usize>, blocks: Seq<usize>)
    ensures
        pushed_all(free, blocks).to_multiset() == free.to_multiset().add(blocks.to_multiset()),
    decreases blocks.len(),
{
    broadcast use vstd::seq_lib::group_to_multiset_ensures;

    if blocks.len() == 0 {
        assert(blocks.to_multiset() =~= Multiset::<usize>::empty());
        assert(pushed_all(free, blocks).to_multiset() =~= free.to_multiset().add(
            blocks.to_multiset(),
        ));
    } else {
        let b = blocks[0];
        let rest = blocks.drop_first();
        lemma_pushed_all_multiset(seq![b] + free, rest);
        lemma_multiset_commutative(seq![b], free);
        assert(blocks =~= seq![b] + rest);
        lemma_multiset_commutative(seq![b], rest);
        assert(pushed_all(free, blocks).to_multiset() =~= free.to_multiset().add(
            blocks.to_multiset(),
        ));
    }
}

/// Reuse law: freeing every block served in a first full drain of the pool
/// — in any order — rebuilds a free list holding exactly those blocks, so a
/// second full drain serves the same set of addresses as the first. The
/// free list is exact, not lossy.
pub proof fn lemma_reuse(blocks: Seq<usize>)
    ensures
        pushed_all(Seq::<usize>::empty(), blocks).to_multiset() == blocks.to_multiset(),
{
    broadcast use vstd::seq_lib::group_to_multiset_ensures;

    lemma_pushed_all_multiset(Seq::empty(), blocks);
    assert(Seq::<usize>::empty().to_multiset() =~= Multiset::<usize>::empty());
    assert(pushed_all(Seq::<usize>::empty(), blocks).to_multiset() =~= blocks.to_multiset());
}

/// Two distinct chunks of one size class occupy disjoint byte ranges.
pub proof fn lemma_chunk_ranges_disjoint(size: usize, i: usize, j: usize)
    requires
        size >= 1,
        i != j,
    ensures
        chunk_end(i, size) <= chunk_start(j, size) || chunk_end(j, size) <= chunk_start(i, size),
{
    if i < j {
        assert(i * size + size <= j * size) by (nonlinear_arith)
            requires
                i < j,
                size >= 1,
        ;
    } else {
        assert(j * size + size <= i * size) by (nonlinear_arith)
            requires
                j < i,
                size >= 1,
        ;
    }
}

/// No-aliasing law, bounded pool: any two distinct live blocks of one pool
/// occupy disjoint byte ranges — the pool never serves overlapping memory.
pub proof fn lemma_no_aliasing_bounded(p: BoundedPool, a: Block, b: Block)
    requires
        p.wf(),
        p.live(a.index),
        p.live(b.index),
        a.index != b.index,
    ensures
        chunk_end(a.index, p.chunk_size) <= chunk_start(b.index, p.chunk_size) || chunk_end(
            b.index,
            p.chunk_size,
        ) <= chunk_start(a.index, p.chunk_size),
{
    lemma_chunk_ranges_disjoint(p.chunk_size, a.index, b.index);
}

/// No-aliasing law, unbounded pool: any two distinct live blocks of one
/// pool occupy disjoint byte ranges.
pub proof fn lemma_no_aliasing_unbounded(p: UnboundedPool, a: Block, b: Block)
    requires
        p.wf(),
        p.live(a.index),
        p.live(b.index),
        a.index != b.index,
    ensures
        chunk_end(a.index, p.chunk_size) <= chunk_start(b.index, p.chunk_size) || chunk_end(
            b.index,
            p.chunk_size,
        ) <= chunk_start(a.index, p.chunk_size),
{
    lemma_chunk_ranges_disjoint(p.chunk_size, a.index, b.index);
}

} // verus!
