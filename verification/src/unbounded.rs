//! The unbounded pool: the per-thread pool behind the global override.

use crate::free_list::{arena_chunks, FreeList};
use crate::{Block, WORD_BYTES};
use vstd::prelude::*;

verus! {

/// Where a request is served: by the pool, or routed unchanged to the
/// system allocator.
#[derive(Clone, Copy, PartialEq, Eq, Structural, Debug)]
pub enum Route {
    Pool(Block),
    System,
}

/// A pool that serves a whole class of small requests and grows on demand.
///
/// No arena exists at construction; the first eligible allocation — and
/// every later one that finds the free list empty — carves a fresh batch
/// arena of `batch` pre-linked chunks. Arenas are never revisited nor
/// freed: memory grows monotonically for the owner's lifetime. A request is
/// served from the pool only while the enable switch is on and the request
/// fits the size class; everything else is routed to the system allocator
/// with the pool untouched. One instance is meant to live per thread, so the
/// whole path needs no locks or atomics.
pub struct UnboundedPool {
    pub chunk_size: usize,
    pub chunk_align: usize,
    pub batch: usize,
    pub enabled: bool,
    pub list: FreeList,
}

impl UnboundedPool {
    /// Number of chunks carved so far, across all arenas.
    pub open spec fn total_carved(self) -> nat {
        self.list.total()
    }

    /// The chain of currently-free chunks, head first.
    pub open spec fn free_chunks(self) -> Seq<usize> {
        self.list.free_chunks()
    }

    /// Chunk `i` is live: served to a caller and not yet freed.
    pub open spec fn live(self, i: usize) -> bool {
        self.list.live(i)
    }

    /// The filter applied to every request, at allocation and at free time
    /// alike: the switch is on and the request fits within the size class.
    /// This pool serves a class of small requests — subset match, not exact
    /// match — trading internal fragmentation for applicability.
    pub open spec fn pool_eligible(self, size: usize, align: usize) -> bool {
        self.enabled && size <= self.chunk_size && align <= self.chunk_align
    }

    /// The two pools agree on size class and batch size; no operation ever
    /// changes them.
    pub open spec fn same_class(self, other: UnboundedPool) -> bool {
        &&& self.chunk_size == other.chunk_size
        &&& self.chunk_align == other.chunk_align
        &&& self.batch == other.batch
    }

    /// Well-formedness: the free list is well-formed, the size class is
    /// valid, and a batch arena request of `batch * size` bytes fits in a
    /// `usize`.
    pub open spec fn wf(self) -> bool {
        &&& self.list.wf()
        &&& self.chunk_size >= WORD_BYTES
        &&& self.chunk_align >= 1
        &&& self.chunk_size % self.chunk_align == 0
        &&& self.batch >= 1
        &&& self.batch * self.chunk_size <= usize::MAX
    }

    /// Build a pool serving chunks of `size` bytes aligned to `align`, which
    /// will grow by arenas of `batch` chunks. The switch starts off and no
    /// arena is carved: creation is lazy, paid by the first eligible
    /// allocation.
    pub fn new(size: usize, align: usize, batch: usize) -> (r: UnboundedPool)
        requires
            size >= WORD_BYTES,
            align >= 1,
            size % align == 0,
            batch >= 1,
            batch * size <= usize::MAX,
        ensures
            r.wf(),
            r.chunk_size == size,
            r.chunk_align == align,
            r.batch == batch,
            !r.enabled,
            r.total_carved() == 0,
            r.free_chunks() == Seq::<usize>::empty(),
    {
        UnboundedPool {
            chunk_size: size,
            chunk_align: align,
            batch,
            enabled: false,
            list: FreeList::new(),
        }
    }

    /// Turn the switch on: from now on eligible requests are served from the
    /// pool. Enabling and disabling must be paired symmetrically around a
    /// region; the switch does not nest.
    pub fn enable(&mut self)
        requires
            old(self).wf(),
        ensures
            final(self).wf(),
            *final(self) == (UnboundedPool { enabled: true, ..*old(self) }),
    {
        self.enabled = true;
    }

    /// Turn the switch off: every request is routed to the system allocator
    /// again, with the pool left exactly as it stands.
    pub fn disable(&mut self)
        requires
            old(self).wf(),
        ensures
            final(self).wf(),
            *final(self) == (UnboundedPool { enabled: false, ..*old(self) }),
    {
        self.enabled = false;
    }

    /// The eligibility filter as executable code, for the surrounding
    /// allocator shell to route requests and frees by. The same filter must
    /// decide a pointer's free as decided its allocation, or the wrong
    /// allocator would reclaim it.
    pub fn is_pool_eligible(&self, size: usize, align: usize) -> (r: bool)
        requires
            self.wf(),
        ensures
            r == self.pool_eligible(size, align),
    {
        self.enabled && size <= self.chunk_size && align <= self.chunk_align
    }

    /// Serve a request of `size` bytes aligned to `align`.
    ///
    /// An ineligible request — switch off, or size or alignment outside the
    /// class — is routed to the system allocator and the pool is left
    /// untouched. An eligible request always gets a pool block: when the
    /// free list is empty a fresh batch arena is carved first and the block
    /// is its first chunk; otherwise the block is the head of the free list.
    /// Either way the served chunk was not live before the call, is live
    /// after it, and every block live before stays live.
    pub fn allocate(&mut self, size: usize, align: usize) -> (r: Route)
        requires
            old(self).wf(),
        ensures
            final(self).wf(),
            old(self).same_class(*final(self)),
            final(self).enabled == old(self).enabled,
            !old(self).pool_eligible(size, align) ==> r == Route::System && *final(self) == *old(
                self,
            ),
            old(self).pool_eligible(size, align) ==> (r matches Route::Pool(b) && {
                &&& !old(self).live(b.index)
                &&& final(self).live(b.index)
                &&& if old(self).free_chunks().len() > 0 {
                    &&& b.index == old(self).free_chunks()[0]
                    &&& final(self).total_carved() == old(self).total_carved()
                    &&& final(self).free_chunks() == old(self).free_chunks().drop_first()
                } else {
                    &&& b.index == old(self).total_carved()
                    &&& final(self).total_carved() == old(self).total_carved() + old(self).batch
                    &&& final(self).free_chunks() == arena_chunks(
                        old(self).total_carved(),
                        old(self).batch as nat,
                    ).drop_first()
                }
            }),
            forall|i: usize| old(self).live(i) ==> final(self).live(i),
    {
        if !self.enabled || size > self.chunk_size || align > self.chunk_align {
            return Route::System;
        }
        if !self.list.has_free() {
            self.list.append_arena(self.batch);
        }
        let index = self.list.pop();
        Route::Pool(Block { index })
    }

    /// Return live block `b`, served by this pool under the same size class
    /// it is being freed under, to the free list. The chunk becomes the new
    /// head and is available for reuse at once. A pointer that fails the
    /// filter belongs to the system allocator and must be freed there
    /// instead; the filter at free time is the one used at allocation time.
    pub fn deallocate(&mut self, b: Block, size: usize, align: usize)
        requires
            old(self).wf(),
            old(self).pool_eligible(size, align),
            old(self).live(b.index),
        ensures
            final(self).wf(),
            old(self).same_class(*final(self)),
            final(self).enabled == old(self).enabled,
            final(self).total_carved() == old(self).total_carved(),
            final(self).free_chunks() == seq![b.index] + old(self).free_chunks(),
            !final(self).live(b.index),
            forall|i: usize| old(self).live(i) && i != b.index ==> final(self).live(i),
    {
        self.list.push(b.index);
    }

    /// Number of chunks carved so far, as a value: `batch` times the number
    /// of arenas created. Observing it around an operation shows whether the
    /// operation grew the pool or bypassed it.
    pub fn total_chunks(&self) -> (r: usize)
        ensures
            r == self.total_carved(),
    {
        self.list.next.len()
    }
}

} // verus!
