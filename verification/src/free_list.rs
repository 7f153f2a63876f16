//! The intrusive chunk free list shared by both pool policies.

use vstd::prelude::*;

verus! {

/// End-of-list sentinel. No chunk can carry this index: chunk indices are
/// positions in the `next` vector, whose length never exceeds `usize::MAX`.
pub const NIL: usize = usize::MAX;

/// The free list of an indexed arena chain.
///
/// `next` models the first machine word of every chunk carved so far: while
/// chunk `i` is free, `next[i]` holds the index of the next free chunk, or
/// [`NIL`] at the end of the list. While chunk `i` is allocated, its word is
/// caller-owned payload and `next[i]` is meaningless junk.
///
/// `free` is the ghost chain of currently-free chunks, head first; `head`
/// is its first element, or [`NIL`] when no chunk is free.
pub struct FreeList {
    pub next: Vec<usize>,
    pub head: usize,
    pub free: Ghost<Seq<usize>>,
}

/// The chunk indices of a fresh arena of `count` chunks carved at position
/// `base`, in pre-linked order: first chunk first.
pub open spec fn arena_chunks(base: nat, count: nat) -> Seq<usize> {
    Seq::new(count, |i: int| (base + i) as usize)
}

impl FreeList {
    /// Number of chunks carved so far, across all arenas.
    pub open spec fn total(self) -> nat {
        self.next@.len()
    }

    /// The chain of currently-free chunks, head first.
    pub open spec fn free_chunks(self) -> Seq<usize> {
        self.free@
    }

    /// Chunk `i` is live: carved from some arena and not on the free list,
    /// so its bytes are currently owned by a caller.
    pub open spec fn live(self, i: usize) -> bool {
        i < self.total() && !self.free@.contains(i)
    }

    /// Well-formedness: the ghost chain lists distinct carved chunks, the
    /// head is its first element (or [`NIL`]), and each free chunk's stored
    /// word holds the next entry of the chain (or [`NIL`] at the end).
    pub open spec fn wf(self) -> bool {
        &&& self.total() <= usize::MAX
        &&& self.free@.no_duplicates()
        &&& forall|k: int| 0 <= k < self.free@.len() ==> (#[trigger] self.free@[k]) < self.total()
        &&& self.head == (if self.free@.len() == 0 {
            NIL
        } else {
            self.free@[0]
        })
        &&& forall|k: int|
            0 <= k < self.free@.len() ==> self.next@[(#[trigger] self.free@[k]) as int] == (if k
                == self.free@.len() - 1 {
                NIL
            } else {
                self.free@[k + 1]
            })
    }

    /// A fresh list with no chunks carved and nothing free.
    pub fn new() -> (r: FreeList)
        ensures
            r.wf(),
            r.total() == 0,
            r.free_chunks() == Seq::<usize>::empty(),
    {
        FreeList { next: Vec::new(), head: NIL, free: Ghost(Seq::empty()) }
    }

    /// Whether some chunk is free: the head is not the sentinel.
    pub fn has_free(&self) -> (r: bool)
        requires
            self.wf(),
        ensures
            r == (self.free_chunks().len() > 0),
    {
        self.head != NIL
    }

    /// Carve one fresh arena of `count` chunks in a single batch and
    /// pre-link all of them into the free list, first chunk first: chunk
    /// `i`'s word is set to the index of chunk `i + 1`, and the last chunk's
    /// word to [`NIL`]. Pre-linking at creation is what makes the first
    /// allocation after growth O(1).
    pub fn append_arena(&mut self, count: usize)
        requires
            old(self).wf(),
            old(self).free_chunks().len() == 0,
            count >= 1,
        ensures
            final(self).wf(),
            final(self).total() == old(self).total() + count,
            final(self).free_chunks() == arena_chunks(old(self).total(), count as nat),
            final(self).next@.subrange(0, old(self).total() as int) == old(self).next@,
    {
        let base = self.next.len();
        let mut i: usize = 0;
        while i < count
            invariant
                i <= count,
                base == old(self).total(),
                self.next@.len() == base + i,
                self.next@.subrange(0, base as int) == old(self).next@,
                forall|m: int| 0 <= m < i - 1 ==> #[trigger] self.next@[base + m] == base + m + 1,
                i > 0 ==> self.next@[base + i - 1] == NIL,
                self.head == old(self).head,
                self.free == old(self).free,
            decreases count - i,
        {
            let k = self.next.len();
            self.next.push(NIL);
            if k > base {
                self.next.set(k - 1, k);
            }
            i = i + 1;
        }
        let total_now = self.next.len();
        self.head = base;
        self.free = Ghost(arena_chunks(base as nat, count as nat));
        proof {
            assert(total_now == base + count);
            assert forall|k: int| 0 <= k < self.free@.len() implies (#[trigger] self.free@[k])
                == base + k by {
                assert(base + k <= total_now);
            }
            assert(self.free@.no_duplicates());
        }
    }

    /// Pop the head chunk off the free list and hand its index out, always
    /// advancing the head to the popped chunk's stored link — skipping that
    /// advance would serve the same chunk twice and alias live blocks.
    pub fn pop(&mut self) -> (r: usize)
        requires
            old(self).wf(),
            old(self).free_chunks().len() > 0,
        ensures
            final(self).wf(),
            r == old(self).free_chunks()[0],
            old(self).free_chunks().contains(r),
            final(self).free_chunks() == old(self).free_chunks().drop_first(),
            !final(self).free_chunks().contains(r),
            final(self).next@ == old(self).next@,
            final(self).total() == old(self).total(),
    {
        let r = self.head;
        let link = self.next[r];
        self.head = link;
        self.free = Ghost(self.free@.drop_first());
        proof {
            let pre = old(self).free@;
            assert(pre[0] == r);
            assert forall|k: int| 0 <= k < self.free@.len() implies (#[trigger] self.free@[k])
                == pre[k + 1] by {}
            if self.free@.contains(r) {
                let k = choose|k: int| 0 <= k < self.free@.len() && self.free@[k] == r;
                assert(pre[k + 1] == pre[0]);
                assert(false);
            }
        }
        r
    }

    /// Push live chunk `i` back onto the free list: write the current head
    /// into the chunk's word, then point the head at the chunk. The chunk is
    /// available for reuse again immediately — silently dropping it instead
    /// would leak capacity and cause spurious exhaustion.
    pub fn push(&mut self, i: usize)
        requires
            old(self).wf(),
            i < old(self).total(),
            !old(self).free_chunks().contains(i),
        ensures
            final(self).wf(),
            final(self).free_chunks() == seq![i] + old(self).free_chunks(),
            final(self).total() == old(self).total(),
    {
        let h = self.head;
        self.next.set(i, h);
        self.head = i;
        self.free = Ghost(seq![i] + self.free@);
        proof {
            let pre = old(self).free@;
            assert(self.free@[0] == i);
            assert forall|k: int| 1 <= k < self.free@.len() implies (#[trigger] self.free@[k])
                == pre[k - 1] by {}
            assert forall|k: int| 1 <= k < self.free@.len() implies self.next@[(
            #[trigger] self.free@[k]) as int] == (if k == self.free@.len() - 1 {
                NIL
            } else {
                self.free@[k + 1]
            }) by {
                assert(pre[k - 1] != i);
                assert(self.next@[pre[k - 1] as int] == old(self).next@[pre[k - 1] as int]);
            }
        }
    }
}

} // verus!
