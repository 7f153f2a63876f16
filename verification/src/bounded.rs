//! The bounded pool: an explicit allocator handle with fixed capacity.

use crate::free_list::{arena_chunks, FreeList};
use crate::{Block, CapacityExceeded, WORD_BYTES};
use vstd::prelude::*;

verus! {

/// A pool with a fixed chunk count, for use as an explicit allocator handle.
///
/// Construction carves exactly one arena of `capacity` chunks; the pool
/// never grows. It serves requests of exactly its chunk size (and of an
/// alignment its chunks satisfy) while the free list is non-empty, and fails
/// deterministically with [`CapacityExceeded`] otherwise. The handle must be
/// confined to a single owner; it offers no cross-thread sharing.
pub struct BoundedPool {
    pub chunk_size: usize,
    pub chunk_align: usize,
    pub list: FreeList,
}

impl BoundedPool {
    /// The fixed chunk count the pool was built with.
    pub open spec fn capacity(self) -> nat {
        self.list.total()
    }

    /// The chain of currently-free chunks, head first.
    pub open spec fn free_chunks(self) -> Seq<usize> {
        self.list.free_chunks()
    }

    /// Chunk `i` is live: served to a caller and not yet freed.
    pub open spec fn live(self, i: usize) -> bool {
        self.list.live(i)
    }

    /// A request is pool-eligible when it asks for exactly the chunk size —
    /// this pool serves one size class, not "fits within" — and for an
    /// alignment that every chunk already satisfies.
    pub open spec fn eligible(self, size: usize, align: usize) -> bool {
        size == self.chunk_size && align <= self.chunk_align
    }

    /// The two pools agree on size class and capacity; allocation and
    /// deallocation never change either.
    pub open spec fn same_class(self, other: BoundedPool) -> bool {
        &&& self.chunk_size == other.chunk_size
        &&& self.chunk_align == other.chunk_align
        &&& self.capacity() == other.capacity()
    }

    /// Well-formedness: the free list is well-formed and the size class is
    /// valid — the chunk size holds a link word and is a multiple of the
    /// alignment, so every chunk of a suitably aligned arena starts at an
    /// aligned address.
    pub open spec fn wf(self) -> bool {
        &&& self.list.wf()
        &&& self.chunk_size >= WORD_BYTES
        &&& self.chunk_align >= 1
        &&& self.chunk_size % self.chunk_align == 0
        &&& self.capacity() * self.chunk_size <= usize::MAX
    }

    /// Build a pool of `capacity` chunks of `size` bytes aligned to `align`,
    /// carving its single arena up front and pre-linking every chunk into
    /// the free list in index order.
    ///
    /// `size` must hold the link word, be a multiple of `align`, and
    /// `capacity * size` — the single arena request made of the system
    /// allocator — must fit in a `usize`.
    pub fn new(capacity: usize, size: usize, align: usize) -> (r: BoundedPool)
        requires
            capacity >= 1,
            size >= WORD_BYTES,
            align >= 1,
            size % align == 0,
            capacity * size <= usize::MAX,
        ensures
            r.wf(),
            r.chunk_size == size,
            r.chunk_align == align,
            r.capacity() == capacity,
            r.free_chunks() == arena_chunks(0, capacity as nat),
    {
        let mut list = FreeList::new();
        list.append_arena(capacity);
        BoundedPool { chunk_size: size, chunk_align: align, list }
    }

    /// Serve a request of `size` bytes aligned to `align`.
    ///
    /// Succeeds exactly when the request is pool-eligible and a free chunk
    /// remains; the served block is the head of the free list, was free
    /// before the call and is live after it, and no block live before the
    /// call stops being live. Ineligible requests and an exhausted pool both
    /// fail with [`CapacityExceeded`] — deterministically, with the pool
    /// untouched — signalling that the caller must fall back elsewhere.
    pub fn allocate(&mut self, size: usize, align: usize) -> (r: Result<Block, CapacityExceeded>)
        requires
            old(self).wf(),
        ensures
            final(self).wf(),
            old(self).same_class(*final(self)),
            r is Ok <==> old(self).eligible(size, align) && old(self).free_chunks().len() > 0,
            r matches Ok(b) ==> {
                &&& b.index == old(self).free_chunks()[0]
                &&& old(self).free_chunks().contains(b.index)
                &&& final(self).free_chunks() == old(self).free_chunks().drop_first()
                &&& final(self).live(b.index)
                &&& !old(self).live(b.index)
            },
            r is Err ==> *final(self) == *old(self),
            forall|i: usize| old(self).live(i) ==> final(self).live(i),
    {
        if size != self.chunk_size || align > self.chunk_align {
            return Err(CapacityExceeded);
        }
        if !self.list.has_free() {
            return Err(CapacityExceeded);
        }
        let index = self.list.pop();
        Ok(Block { index })
    }

    /// Return live block `b`, allocated from this pool under the same size
    /// class it is being freed under, to the free list. The chunk becomes
    /// the new head and is available for reuse at once.
    pub fn deallocate(&mut self, b: Block, size: usize, align: usize)
        requires
            old(self).wf(),
            old(self).eligible(size, align),
            old(self).live(b.index),
        ensures
            final(self).wf(),
            old(self).same_class(*final(self)),
            final(self).free_chunks() == seq![b.index] + old(self).free_chunks(),
            !final(self).live(b.index),
            forall|i: usize| old(self).live(i) && i != b.index ==> final(self).live(i),
    {
        self.list.push(b.index);
    }
}

} // verus!
