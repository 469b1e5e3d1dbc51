use chroma_api::pool::{Acquire, ClientPool};

#[test]
fn new_pool_is_empty() {
    let pool: ClientPool<u32> = ClientPool::new(4);
    assert_eq!(pool.idle_count(), 0);
    assert_eq!(pool.allocated(), 0);
    assert_eq!(pool.maximum(), 4);
    assert_eq!(pool.on_loan(), 0);
}

#[test]
fn third_acquire_waits_until_a_release() {
    let mut pool: ClientPool<&str> = ClientPool::new(2);
    assert!(matches!(pool.acquire(), Acquire::Allocate));
    assert!(matches!(pool.acquire(), Acquire::Allocate));
    assert_eq!(pool.on_loan(), 2);
    assert!(matches!(pool.acquire(), Acquire::Wait));
    assert!(matches!(pool.acquire(), Acquire::Wait));
    assert_eq!(pool.allocated(), 2);
    pool.release("first");
    assert_eq!(pool.idle_count(), 1);
    assert_eq!(pool.on_loan(), 1);
    assert!(matches!(pool.acquire(), Acquire::Reuse("first")));
    assert_eq!(pool.on_loan(), 2);
    assert!(matches!(pool.acquire(), Acquire::Wait));
}

#[test]
fn handles_never_exceed_the_cap() {
    let cap = 2;
    let mut pool: ClientPool<usize> = ClientPool::new(cap);
    let mut held: Vec<usize> = Vec::new();
    let mut created = 0;
    let mut completed = 0;
    let mut waiting = 5;
    while completed < 5 {
        while waiting > 0 {
            match pool.acquire() {
                Acquire::Reuse(handle) => held.push(handle),
                Acquire::Allocate => {
                    created += 1;
                    held.push(created);
                }
                Acquire::Wait => break,
            }
            waiting -= 1;
            assert!(pool.allocated() <= cap);
            assert!(pool.on_loan() <= cap);
        }
        let handle = held.remove(0);
        pool.release(handle);
        completed += 1;
        assert!(pool.allocated() <= cap);
    }
    assert_eq!(created, 2);
    assert_eq!(pool.allocated(), 2);
    assert_eq!(pool.on_loan(), 0);
    assert_eq!(pool.idle_count(), 2);
}

#[test]
fn failed_dispatch_leaks_no_handle() {
    let mut pool: ClientPool<u8> = ClientPool::new(1);
    assert!(matches!(pool.acquire(), Acquire::Allocate));
    let loaned_before = pool.on_loan();
    assert_eq!(loaned_before, 1);
    // the request fails; its handle comes back all the same
    pool.release(9);
    assert_eq!(pool.on_loan(), 0);
    assert_eq!(pool.idle_count(), 1);
    assert!(matches!(pool.acquire(), Acquire::Reuse(9)));
    pool.release(9);
    assert_eq!(pool.idle_count(), 1);
    assert_eq!(pool.allocated(), 1);
}

#[test]
fn reuse_keeps_the_idle_count_over_a_dispatch() {
    let mut pool: ClientPool<u8> = ClientPool::new(3);
    assert!(matches!(pool.acquire(), Acquire::Allocate));
    assert!(matches!(pool.acquire(), Acquire::Allocate));
    pool.release(1);
    pool.release(2);
    let idle_before = pool.idle_count();
    let got = pool.acquire();
    assert!(matches!(got, Acquire::Reuse(2)));
    pool.release(2);
    assert_eq!(pool.idle_count(), idle_before);
    assert_eq!(pool.allocated(), 2);
}

#[test]
fn last_released_is_first_reused() {
    let mut pool: ClientPool<char> = ClientPool::new(2);
    assert!(matches!(pool.acquire(), Acquire::Allocate));
    assert!(matches!(pool.acquire(), Acquire::Allocate));
    pool.release('a');
    pool.release('b');
    assert!(matches!(pool.acquire(), Acquire::Reuse('b')));
    assert!(matches!(pool.acquire(), Acquire::Reuse('a')));
    assert!(matches!(pool.acquire(), Acquire::Wait));
}

#[test]
fn pool_of_zero_always_waits() {
    let mut pool: ClientPool<u8> = ClientPool::new(0);
    assert!(matches!(pool.acquire(), Acquire::Wait));
    assert!(matches!(pool.acquire(), Acquire::Wait));
    assert_eq!(pool.allocated(), 0);
}

#[test]
fn idle_handle_is_preferred_to_a_new_one() {
    let mut pool: ClientPool<u8> = ClientPool::new(5);
    assert!(matches!(pool.acquire(), Acquire::Allocate));
    pool.release(7);
    assert!(matches!(pool.acquire(), Acquire::Reuse(7)));
    assert_eq!(pool.allocated(), 1);
    assert!(matches!(pool.acquire(), Acquire::Allocate));
    assert_eq!(pool.allocated(), 2);
}
