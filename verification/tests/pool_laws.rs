use slab_pool::bounded::BoundedPool;
use slab_pool::unbounded::{Route, UnboundedPool};
use slab_pool::{Block, CapacityExceeded};

fn expect_block(r: Result<Block, CapacityExceeded>) -> Block {
    match r {
        Ok(b) => b,
        Err(_) => panic!("expected a block"),
    }
}

fn expect_pool_route(r: Route) -> Block {
    match r {
        Route::Pool(b) => b,
        Route::System => panic!("expected the pool to serve this request"),
    }
}

// Capacity law and the concrete bounded scenario: a pool of 4 chunks of
// 8 bytes aligned to 8 serves exactly 4 allocations with distinct blocks,
// fails on the 5th, and after one free serves exactly the freed block again.
#[test]
fn test_bounded_capacity() {
    let mut p = BoundedPool::new(4, 8, 8);
    let mut blocks: Vec<Block> = Vec::new();
    for _ in 0..4 {
        blocks.push(expect_block(p.allocate(8, 8)));
    }
    for i in 0..4 {
        for j in 0..4 {
            if i != j {
                assert_ne!(blocks[i], blocks[j]);
            }
        }
    }
    assert_eq!(p.allocate(8, 8), Err(CapacityExceeded));
    let freed = blocks[1];
    p.deallocate(freed, 8, 8);
    assert_eq!(p.allocate(8, 8), Ok(freed));
}

#[test]
fn test_bounded_single_chunk() {
    let mut p = BoundedPool::new(1, 8, 8);
    let b = expect_block(p.allocate(8, 8));
    assert_eq!(p.allocate(8, 8), Err(CapacityExceeded));
    p.deallocate(b, 8, 8);
    assert_eq!(p.allocate(8, 8), Ok(b));
}

// A request outside the bounded pool's exact size class fails even with
// free chunks remaining, and leaves the pool intact.
#[test]
fn test_bounded_wrong_class() {
    let mut p = BoundedPool::new(2, 16, 8);
    assert_eq!(p.allocate(8, 8), Err(CapacityExceeded));
    assert_eq!(p.allocate(24, 8), Err(CapacityExceeded));
    assert_eq!(p.allocate(16, 16), Err(CapacityExceeded));
    let a = expect_block(p.allocate(16, 8));
    let b = expect_block(p.allocate(16, 4));
    assert_ne!(a, b);
}

// Reuse law: allocating n, freeing all n, then allocating n again serves
// the same set of addresses, in some order.
#[test]
fn test_reuse() {
    let mut p = BoundedPool::new(4, 8, 8);
    let mut first: Vec<usize> = Vec::new();
    for _ in 0..4 {
        first.push(expect_block(p.allocate(8, 8)).index);
    }
    for &i in &first {
        p.deallocate(Block { index: i }, 8, 8);
    }
    let mut second: Vec<usize> = Vec::new();
    for _ in 0..4 {
        second.push(expect_block(p.allocate(8, 8)).index);
    }
    assert_eq!(p.allocate(8, 8), Err(CapacityExceeded));
    first.sort();
    second.sort();
    assert_eq!(first, second);
}

// No-aliasing law on concrete blocks: the byte ranges of simultaneously
// live blocks never overlap.
#[test]
fn test_no_aliasing() {
    let size: usize = 8;
    let mut p = BoundedPool::new(4, size, 8);
    let mut live: Vec<Block> = Vec::new();
    for _ in 0..4 {
        live.push(expect_block(p.allocate(size, 8)));
    }
    for a in &live {
        for b in &live {
            if a.index != b.index {
                let (a0, a1) = (a.index * size, a.index * size + size);
                let (b0, b1) = (b.index * size, b.index * size + size);
                assert!(a1 <= b0 || b1 <= a0);
            }
        }
    }
}

// Growth law: after exhausting one batch arena of size N, the (N+1)-th
// allocation succeeds by carving a new arena rather than failing.
#[test]
fn test_growth() {
    let mut u = UnboundedPool::new(8, 8, 4);
    u.enable();
    assert_eq!(u.total_chunks(), 0);
    let mut blocks: Vec<Block> = Vec::new();
    for _ in 0..4 {
        blocks.push(expect_pool_route(u.allocate(8, 8)));
    }
    assert_eq!(u.total_chunks(), 4);
    let fifth = expect_pool_route(u.allocate(8, 8));
    assert_eq!(u.total_chunks(), 8);
    for b in &blocks {
        assert_ne!(b.index, fifth.index);
    }
}

// Eligibility law: a request over the size class's size or alignment is
// always routed to the system allocator, and the pool is left untouched —
// not even a first arena is carved for it.
#[test]
fn test_eligibility() {
    let mut u = UnboundedPool::new(32, 32, 4);
    u.enable();
    assert!(u.is_pool_eligible(32, 32));
    assert!(u.is_pool_eligible(1, 1));
    assert!(!u.is_pool_eligible(33, 32));
    assert!(!u.is_pool_eligible(32, 64));
    assert_eq!(u.allocate(33, 32), Route::System);
    assert_eq!(u.allocate(100, 8), Route::System);
    assert_eq!(u.allocate(32, 64), Route::System);
    assert_eq!(u.total_chunks(), 0);
    let b = expect_pool_route(u.allocate(32, 32));
    assert_eq!(b.index, 0);
}

// Switch law: with the enable switch off no allocation touches pool state; the
// free-list head is the same before and after, shown by the next eligible
// allocation serving exactly the chunk that was at the head.
#[test]
fn test_enable_switch() {
    let mut u = UnboundedPool::new(32, 32, 4);
    assert!(!u.is_pool_eligible(8, 8));
    assert_eq!(u.allocate(8, 8), Route::System);
    assert_eq!(u.total_chunks(), 0);
    u.enable();
    let first = expect_pool_route(u.allocate(8, 8));
    assert_eq!(first.index, 0);
    u.disable();
    assert_eq!(u.allocate(8, 8), Route::System);
    assert_eq!(u.allocate(8, 8), Route::System);
    assert_eq!(u.total_chunks(), 4);
    u.enable();
    let second = expect_pool_route(u.allocate(8, 8));
    assert_eq!(second.index, 1);
}

// The unbounded free list is exact across grow, drain and free cycles.
#[test]
fn test_unbounded_reuse() {
    let mut u = UnboundedPool::new(8, 4, 2);
    u.enable();
    let mut first: Vec<usize> = Vec::new();
    for _ in 0..4 {
        first.push(expect_pool_route(u.allocate(8, 4)).index);
    }
    assert_eq!(u.total_chunks(), 4);
    for &i in &first {
        u.deallocate(Block { index: i }, 8, 4);
    }
    let mut second: Vec<usize> = Vec::new();
    for _ in 0..4 {
        second.push(expect_pool_route(u.allocate(8, 4)).index);
    }
    assert_eq!(u.total_chunks(), 4);
    first.sort();
    second.sort();
    assert_eq!(first, second);
}
