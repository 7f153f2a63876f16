use slab_pool::unbounded::{Route, UnboundedPool};

// Timing comparison carried over from the allocator's benchmark pair: the
// first routes the small allocations of the hot loop through the pool, the
// second leaves them to the system allocator.

#[test]
fn test_pool() {
    let mut pool = UnboundedPool::new(32, 32, 4096);
    pool.enable();
    let _ = Box::new(1);
    for _ in 0..10 {
        let mut time: [u128; 10] = [0; 10];
        let _ = vec![0; 1000000];
        for i in 0..10 {
            let t0 = std::time::Instant::now();
            let mut served: Vec<Route> = Vec::new();
            // three allocations the size and alignment of a three-element
            // i32 vector's buffer, freed right after, as the benchmark's
            // short-lived vectors were
            for _ in 0..3 {
                served.push(pool.allocate(12, 4));
            }
            for r in served {
                match r {
                    Route::Pool(b) => pool.deallocate(b, 12, 4),
                    Route::System => {}
                }
            }
            time[i] = t0.elapsed().as_nanos();
        }
        println!("pool: {time:?}");
    }
    pool.disable();
}

#[test]
fn test_malloc() {
    let _ = Box::new(1);
    for _ in 0..10 {
        let mut time: [u128; 10] = [0; 10];
        let _ = vec![0; 1000000];
        for i in 0..10 {
            let t0 = std::time::Instant::now();
            let _ = vec![1, 2, 3];
            let _ = vec![1, 2, 3];
            let _ = vec![1, 2, 3];
            time[i] = t0.elapsed().as_nanos();
        }
        println!("malloc: {time:?}");
    }
}
