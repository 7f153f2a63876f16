//! A fixed-size-class slab pool allocator, modelled over an indexed arena.
//!
//! The pool hands out and reclaims blocks of one fixed size and alignment
//! through an intrusive free list: while a chunk is free, its first machine
//! word holds the index of the next free chunk. Chunks are identified by
//! their index into the chain of arenas a pool has carved, so the free list
//! stores indices rather than raw addresses.
//!
//! Two policies are offered. A [`bounded::BoundedPool`] is built with a fixed
//! chunk count, serves requests of exactly its chunk size, and fails with
//! [`CapacityExceeded`] once exhausted. An [`unbounded::UnboundedPool`]
//! serves every request that fits its size class while its enable switch is on,
//! and grows by carving a fresh batch arena whenever the free list runs dry;
//! requests outside the class, or made while the switch is off, are routed to
//! the system allocator untouched.

use vstd::prelude::*;

pub mod bounded;
pub mod free_list;
pub mod laws;
pub mod unbounded;

verus! {

/// Size in bytes of the machine word that a free chunk's link occupies on the
/// 64-bit targets this crate models. A pool's chunk size must be at least
/// this large so the link fits inside the chunk itself.
pub const WORD_BYTES: usize = 8;

/// A block served by a pool: the index of the chunk whose bytes the caller
/// now owns. The chunk starts `index * size` bytes into the pool's arena
/// space and is `size` bytes long.
#[derive(Clone, Copy, PartialEq, Eq, Structural, Debug)]
pub struct Block {
    pub index: usize,
}

/// Failure of a bounded pool: the request is outside the pool's size class,
/// or the free list is empty and the bounded policy never grows. Recoverable;
/// the caller is expected to fall back to another allocation strategy.
#[derive(Clone, Copy, PartialEq, Eq, Structural, Debug)]
pub struct CapacityExceeded;

/// Byte offset at which chunk `index` of a pool with the given chunk size
/// starts.
pub open spec fn chunk_start(index: usize, size: usize) -> int {
    index * size
}

/// Byte offset one past the last byte of chunk `index`.
pub open spec fn chunk_end(index: usize, size: usize) -> int {
    index * size + size
}

} // verus!
