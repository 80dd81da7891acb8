use rps2_sync::kernel::{Kernel, MAX_SEMAS};
use rps2_sync::sema::Sema;
use rps2_sync::mpmc::{BoundedQueue, UnboundedQueue};

#[test]
fn unbounded_queue_keeps_producer_order() {
    let mut k = Kernel::new();
    let mut q = UnboundedQueue::new(&mut k);
    q.push(&mut k, 1);
    q.push(&mut k, 2);
    q.push(&mut k, 3);
    let popped = [q.pop(&mut k), q.pop(&mut k), q.pop(&mut k)];
    assert_eq!(popped, [1, 2, 3]);
    assert_eq!(q.try_pop(&mut k), None);
}

#[test]
fn unbounded_queue_counts_items_on_its_semaphore() {
    let mut k = Kernel::new();
    let mut q = UnboundedQueue::new(&mut k);
    q.irq_push(&mut k, 'x');
    q.push(&mut k, 'y');
    assert_eq!(k.refer_sema_status(0).1.count, 2);
    assert_eq!(q.irq_try_pop(&mut k), Some('x'));
    assert_eq!(q.try_pop(&mut k), Some('y'));
    assert_eq!(q.irq_try_pop(&mut k), None);
    assert_eq!(k.refer_sema_status(0).1.count, 0);
}

#[test]
fn bounded_queue_refuses_push_when_full() {
    let mut k = Kernel::new();
    let mut q = BoundedQueue::new(&mut k, 2);
    assert_eq!(q.try_push(&mut k, 10), Ok(()));
    q.push(&mut k, 20);
    assert_eq!(q.try_push(&mut k, 30), Err(30));
    assert_eq!(q.irq_try_push(&mut k, 31), Err(31));
    // items + free places == capacity
    let items = k.refer_sema_status(0).1.count;
    let space = k.refer_sema_status(1).1.count;
    assert_eq!((items, space), (2, 0));
    assert_eq!(q.pop(&mut k), 10);
    assert_eq!(q.irq_try_push(&mut k, 40), Ok(()));
    assert_eq!(q.try_pop(&mut k), Some(20));
    assert_eq!(q.irq_try_pop(&mut k), Some(40));
    assert_eq!(q.try_pop(&mut k), None);
    assert_eq!(k.refer_sema_status(1).1.count, 2);
}

#[test]
fn bounded_queue_of_one_place() {
    let mut k = Kernel::new();
    let mut q = BoundedQueue::new(&mut k, 1);
    assert_eq!(q.try_push(&mut k, "a"), Ok(()));
    assert_eq!(q.try_push(&mut k, "b"), Err("b"));
    assert_eq!(q.pop(&mut k), "a");
    assert_eq!(q.try_push(&mut k, "b"), Ok(()));
}

#[test]
fn queues_pop_every_pushed_value_once() {
    // Two producers and two consumers, interleaved.
    let mut k = Kernel::new();
    let mut q = BoundedQueue::new(&mut k, 3);
    let mut popped = Vec::new();
    let mut pushed = Vec::new();
    for i in 0..20u32 {
        let (a, b) = (i, 100 + i);
        if q.try_push(&mut k, a).is_ok() {
            pushed.push(a);
        }
        if q.try_push(&mut k, b).is_ok() {
            pushed.push(b);
        }
        if let Some(v) = q.try_pop(&mut k) {
            popped.push(v);
        }
        if i % 3 == 0 {
            if let Some(v) = q.try_pop(&mut k) {
                popped.push(v);
            }
        }
    }
    while let Some(v) = q.try_pop(&mut k) {
        popped.push(v);
    }
    assert_eq!(popped, pushed);

    let mut u = UnboundedQueue::new(&mut k);
    for i in 0..50u64 {
        u.push(&mut k, i);
    }
    let mut out = Vec::new();
    while let Some(v) = u.try_pop(&mut k) {
        out.push(v);
    }
    assert_eq!(out, (0..50u64).collect::<Vec<_>>());
}

#[test]
fn bounded_queue_uses_freed_semaphore_slots() {
    let mut k = Kernel::new();
    let mut all = Vec::new();
    for _ in 0..MAX_SEMAS {
        all.push(Sema::new(&mut k).unwrap());
    }
    assert!(Sema::new(&mut k).is_err());
    all.pop().unwrap().delete(&mut k);
    all.pop().unwrap().delete(&mut k);
    let mut q = BoundedQueue::new(&mut k, 2);
    assert_eq!(q.try_push(&mut k, 5u8), Ok(()));
    assert_eq!(q.pop(&mut k), 5);
}

#[test]
fn deleting_queues_frees_their_semaphores() {
    let mut k = Kernel::new();
    let mut u = UnboundedQueue::new(&mut k);
    u.push(&mut k, 1u8);
    u.delete(&mut k);
    let b: BoundedQueue<u8> = BoundedQueue::new(&mut k, 4);
    assert_eq!(k.refer_sema_status(0).1.max_count, 4);
    b.delete(&mut k);
    for sid in 0..3 {
        assert_eq!(k.refer_sema_status(sid).0, rps2_sync::kernel::E_REJECTED);
    }
}
