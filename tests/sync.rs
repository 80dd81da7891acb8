use rps2_sync::kernel::Kernel;
use rps2_sync::lazy_lock::LazyLock;
use rps2_sync::mutex::Mutex;
use rps2_sync::once::Once;
use rps2_sync::once_lock::OnceLock;
use std::cell::Cell;
use std::sync::atomic::{AtomicU32, Ordering};

fn very_expensive() -> u32 {
    42
}

#[test]
fn test_lazy_lock() {
    let mut k = Kernel::new();
    let counter = AtomicU32::new(0);

    let mut lazy = LazyLock::new(&mut k, || {
        counter.fetch_add(1, Ordering::Relaxed);
        very_expensive()
    });

    // Make sure it didn't activate
    assert_eq!(counter.load(Ordering::Relaxed), 0);

    assert_eq!(*lazy.force(&mut k), 42);

    // Make sure it triggered properly
    assert_eq!(counter.load(Ordering::Relaxed), 1);

    assert_eq!(*lazy.force(&mut k), 42);

    // Make sure it didn't trigger again
    assert_eq!(counter.load(Ordering::Relaxed), 1);
}

#[test]
fn lazy_lock_into_inner_before_and_after_force() {
    let mut k = Kernel::new();
    let lazy = LazyLock::new(&mut k, || 7u8);
    assert!(lazy.get().is_none());
    let f = match LazyLock::into_inner(lazy, &mut k) {
        Ok(_) => panic!("not forced yet"),
        Err(f) => f,
    };
    assert_eq!(f(), 7);
    assert_eq!(k.refer_sema_status(0).0, -1);

    let mut lazy = LazyLock::new(&mut k, || 9u8);
    assert_eq!(*lazy.force(&mut k), 9);
    assert_eq!(lazy.get(), Some(&9));
    assert!(matches!(LazyLock::into_inner(lazy, &mut k), Ok(9)));
}

#[test]
fn mutex_guarded_increments_from_many_threads() {
    // T threads, each doing N increments, taking turns round-robin.
    for (threads, n) in [(1u64, 1u64), (3, 5), (4, 25)] {
        let mut k = Kernel::new();
        let mut m = Mutex::new(&mut k, 0u64);
        for _round in 0..n {
            for _t in 0..threads {
                let mut g = m.lock(&mut k);
                *g.get_mut() += 1;
                m.unlock(&mut k, g);
            }
        }
        assert_eq!(m.into_inner(&mut k), threads * n);
    }
}

#[test]
fn mutex_excludes_a_second_guard() {
    let mut k = Kernel::new();
    let mut m = Mutex::new(&mut k, String::from("a"));
    let g = m.try_lock(&mut k).expect("free mutex");
    assert_eq!(g.get(), "a");
    assert!(m.try_lock(&mut k).is_none());
    assert!(m.irq_try_lock(&mut k).is_none());
    assert_eq!(k.refer_sema_status(0).1.count, 0);
    m.unlock(&mut k, g);
    assert_eq!(k.refer_sema_status(0).1.count, 1);
    let mut g = m.irq_try_lock(&mut k).expect("free again");
    g.get_mut().push('b');
    m.irq_unlock(&mut k, g);
    assert_eq!(m.get_mut().as_str(), "ab");
}

#[test]
fn once_runs_initializer_once_for_many_callers() {
    for callers in [1u32, 2, 10] {
        let mut k = Kernel::new();
        let counter = Cell::new(0u32);
        let mut once = Once::new(&mut k);
        assert!(!once.is_completed());
        for _ in 0..callers {
            once.call_once(&mut k, || counter.set(counter.get() + 1));
        }
        assert_eq!(counter.get(), 1);
        assert!(once.is_completed());
    }
}

#[test]
fn once_call_once_with_hands_back_unused_argument() {
    let mut k = Kernel::new();
    let mut once = Once::new(&mut k);
    assert_eq!(once.call_once_with(&mut k, 5u32, |x| x * 2), Ok(10));
    assert_eq!(once.call_once_with(&mut k, 6u32, |x| x * 2), Err(6));
}

#[test]
fn once_lock_set_get_and_take() {
    let mut k = Kernel::new();
    let mut cell: OnceLock<u32> = OnceLock::new(&mut k);
    assert!(!cell.is_initialized());
    assert_eq!(cell.get(), None);
    assert_eq!(cell.set(&mut k, 3), Ok(()));
    assert_eq!(cell.set(&mut k, 4), Err(4));
    assert_eq!(cell.get(), Some(&3));
    *cell.get_mut().unwrap() = 8;
    assert_eq!(cell.get(), Some(&8));
    assert_eq!(*cell.get_or_init(&mut k, || 99), 8);
    assert_eq!(cell.take(&mut k), Some(8));
    assert_eq!(cell.get_mut(), None);
    assert!(!cell.is_initialized());
    assert_eq!(cell.take(&mut k), None);
    assert_eq!(*cell.get_or_init(&mut k, || 99), 99);
    assert_eq!(cell.into_inner(&mut k), Some(99));
}

#[test]
fn with_lock_releases_once_and_keeps_new_value() {
    let mut k = Kernel::new();
    let mut m = Mutex::new(&mut k, 10u32);
    let r = m.with_lock(&mut k, |v| (v * 3, v + 1));
    assert_eq!(r, 11);
    assert_eq!(k.refer_sema_status(0).1.count, 1);
    let g = m.try_lock(&mut k).expect("released");
    assert_eq!(*g.get(), 30);
    m.unlock(&mut k, g);
}

#[test]
fn guarded_increments_add_up() {
    let mut k = Kernel::new();
    let mut m = Mutex::new(&mut k, 0u64);
    for _ in 0..3 * 4 {
        rps2_sync::mutex::guarded_increment(&mut m, &mut k);
    }
    assert_eq!(m.into_inner(&mut k), 12);
}
