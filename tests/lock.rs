use atomic_lock::AtomicLock;

#[test]
fn new_lock_is_free() {
    let mut l = AtomicLock::new(7u32);
    let g = l.lock();
    assert!(g.is_some());
    assert_eq!(*g.unwrap(), 7);
}

#[test]
fn no_acquire_while_held() {
    let mut l = AtomicLock::new(1u8);
    let g = l.lock().unwrap();
    std::mem::forget(g);
    assert!(l.lock().is_none());
    assert!(l.lock().is_none());
}

#[test]
fn release_restores_availability() {
    let mut l = AtomicLock::new(0i32);
    {
        let g = l.lock();
        assert!(g.is_some());
    }
    assert!(l.lock().is_some());
    assert!(l.lock().is_some());
}

#[test]
fn visibility_of_writes() {
    let mut l = AtomicLock::new(0u64);
    {
        let mut a = l.lock().unwrap();
        *a = 42;
    }
    let b = l.lock().unwrap();
    assert_eq!(*b, 42);
}

#[test]
fn counter_counts_every_success() {
    let mut l = AtomicLock::new(0usize);
    let mut successes: usize = 0;
    for _ in 0..100 {
        if let Some(mut g) = l.lock() {
            *g.get_mut() += 1;
            successes += 1;
        }
    }
    assert_eq!(successes, 100);
    assert_eq!(l.into_inner(), 100);
}

#[test]
fn at_most_one_success_without_release() {
    let mut l = AtomicLock::new(0usize);
    let mut successes: usize = 0;
    for _ in 0..10 {
        if let Some(mut g) = l.lock() {
            *g.as_mut() += 1;
            successes += 1;
            std::mem::forget(g);
        }
    }
    assert_eq!(successes, 1);
    assert_eq!(l.into_inner(), 1);
}

#[test]
fn unlock_by_hand_frees_a_leaked_guard() {
    let mut l = AtomicLock::new(String::from("a"));
    {
        let mut g = l.lock().unwrap();
        g.push('b');
        std::mem::forget(g);
    }
    assert!(l.lock().is_none());
    l.unlock();
    let g = l.lock().unwrap();
    assert_eq!(g.as_str(), "ab");
}

#[test]
fn guards_with_equal_values_compare_equal() {
    let mut a = AtomicLock::new(3i32);
    let mut b = AtomicLock::new(3i32);
    let ga = a.lock().unwrap();
    let gb = b.lock().unwrap();
    assert!(ga == gb);
    assert!(ga <= gb);
    assert!(!(ga < gb));
}

#[test]
fn guards_order_as_their_values() {
    let mut a = AtomicLock::new(3i32);
    let mut b = AtomicLock::new(5i32);
    let ga = a.lock().unwrap();
    let gb = b.lock().unwrap();
    assert!(ga != gb);
    assert!(ga < gb);
    assert!(gb > ga);
    assert_eq!(ga.partial_cmp(&gb), Some(std::cmp::Ordering::Less));
}

#[test]
fn into_inner_returns_the_value() {
    let l = AtomicLock::new("x");
    assert_eq!(l.into_inner(), "x");
}

#[test]
fn unchecked_access_reads_and_writes() {
    let mut l = AtomicLock::new(5u16);
    *l.data() = 9;
    assert_eq!(*l.data(), 9);
    let g = l.lock().unwrap();
    assert_eq!(*g.get(), 9);
    assert_eq!(*g.as_ref(), 9);
}

#[test]
fn default_and_from_build_free_locks() {
    let mut d: AtomicLock<u32> = AtomicLock::default();
    assert_eq!(*d.lock().unwrap(), 0);
    let mut f: AtomicLock<u32> = AtomicLock::from(11);
    assert_eq!(*f.lock().unwrap(), 11);
    let mut i: AtomicLock<u32> = 12.into();
    assert_eq!(*i.lock().unwrap(), 12);
}

#[test]
fn unlock_keeps_the_value() {
    let mut l = AtomicLock::new(vec![1u8, 2]);
    let mut g = l.lock().unwrap();
    g.push(3);
    std::mem::forget(g);
    l.unlock();
    assert_eq!(l.into_inner(), vec![1, 2, 3]);
}
