use rps2_sync::ffi::{self, Error, Syscall};
use rps2_sync::kernel::{Kernel, E_REJECTED};
use rps2_sync::os::ThreadParam;
use rps2_sync::thread::{
    current, panicking, rotate_ready_queue, spawn, unwind_boundary, Builder,
    DEFAULT_PRIORITY, MAX_PRIORITY, MAX_STACK_SIZE, MIN_PRIORITY, MIN_STACK_SIZE,
};
use rps2_sync::thread_status::{DORMANT, READY, SUSPEND};

#[test]
fn spawn_then_join_returns_value() {
    let mut k = Kernel::new();
    let h = spawn(&mut k, || 42).expect("spawn");
    assert!(h.is_finished(&k));
    assert!(matches!(h.join(&mut k), Ok(42)));
    // the packet semaphore is gone, and only the boot thread is left
    assert_eq!(k.refer_sema_status(0).0, E_REJECTED);
    assert_eq!(k.refer_thread_status(1).0, E_REJECTED);
    assert!(!panicking());
}

#[test]
fn spawned_closure_moves_its_captures() {
    let mut k = Kernel::new();
    let v = vec![1, 2, 3];
    let h = Builder::new()
        .stack_size(4096)
        .priority(10)
        .spawn(&mut k, move || v.iter().sum::<i32>())
        .expect("spawn");
    assert!(matches!(h.join(&mut k), Ok(6)));
}

#[test]
fn terminate_releases_thread_and_packet() {
    let mut k = Kernel::new();
    let h = spawn(&mut k, || "done").expect("spawn");
    let t = h.thread();
    h.terminate(&mut k);
    assert_eq!(k.refer_sema_status(0).0, E_REJECTED);
    assert!(t.priority(&k).is_err());
}

#[test]
fn spawn_fails_when_thread_table_is_full() {
    let mut k = Kernel::new();
    let params = ThreadParam {
        status: 0,
        stack_size: 512,
        initial_priority: 5,
        current_priority: 0,
        attr: 0,
        option: 0,
    };
    while k.create_thread(params) >= 0 {}
    let r = spawn(&mut k, || 1u8);
    assert_eq!(
        r.err(),
        Some(Error { syscall: Syscall::CreateThread, code: E_REJECTED })
    );
    // the packet semaphore was given back
    assert_eq!(k.refer_sema_status(0).0, E_REJECTED);
}

#[test]
fn builder_clamps_stack_size_and_priority() {
    let mut k = Kernel::new();
    let h = Builder::new().stack_size(1).priority(0).spawn(&mut k, || ()).unwrap();
    h.join(&mut k).ok().unwrap();
    let b = Builder::default().stack_size(u32::MAX).priority(u32::MAX);
    assert!(b.spawn(&mut k, || ()).is_ok());
    assert_eq!((MIN_STACK_SIZE, MAX_STACK_SIZE), (512, 1024 * 1024));
    assert_eq!((MIN_PRIORITY, DEFAULT_PRIORITY, MAX_PRIORITY), (1, 64, 127));
}

#[test]
fn thread_handle_priority_suspend_resume_wakeup() {
    let mut k = Kernel::new();
    let me = current(&k);
    assert_eq!(me.id(), 0);
    assert_eq!(me.priority(&k), Ok(0));
    assert_eq!(me.change_priority(&mut k, 500), Ok(()));
    assert_eq!(me.priority(&k), Ok(127));
    assert_eq!(me.change_priority(&mut k, 0), Ok(()));
    assert_eq!(me.priority(&k), Ok(1));

    let params = ThreadParam {
        status: 0,
        stack_size: 1024,
        initial_priority: 20,
        current_priority: 0,
        attr: 0,
        option: 0,
    };
    let tid = k.create_thread(params);
    assert_eq!(tid, 1);
    assert_eq!(k.refer_thread_status(tid).1.status, DORMANT);
    assert_eq!(k.start_thread(tid), tid);
    assert_eq!(k.refer_thread_status(tid).1.status, READY);
    assert_eq!(ffi::suspend_thread(&mut k, tid), Ok(()));
    assert_eq!(k.refer_thread_status(tid).1.status, SUSPEND);
    assert_eq!(ffi::suspend_thread(&mut k, tid).unwrap_err().syscall, Syscall::SuspendThread);
    assert_eq!(ffi::irq_resume_thread(&mut k, tid), Ok(()));
    assert_eq!(ffi::resume_thread(&mut k, tid).unwrap_err().syscall, Syscall::ResumeThread);
    assert_eq!(ffi::wakeup_thread(&mut k, tid), Ok(()));
    assert_eq!(k.refer_thread_status(tid).1.wakeup_count, 1);
    assert_eq!(ffi::cancel_wakeup_thread(&mut k, tid), Ok(()));
    assert_eq!(k.refer_thread_status(tid).1.wakeup_count, 0);
    assert_eq!(
        ffi::release_wait_thread(&mut k, tid).unwrap_err().syscall,
        Syscall::ReleaseWaitThread
    );
    assert_eq!(me.wakeup(&mut k).unwrap_err().syscall, Syscall::WakeupThread);
    assert_eq!(me.suspend(&mut k).unwrap_err().code, E_REJECTED);
    assert_eq!(me.resume(&mut k).unwrap_err().syscall, Syscall::ResumeThread);
    assert_eq!(me.cancel_wakeup(&mut k), Ok(()));
    assert_eq!(me.irq_cancel_wakeup(&mut k), Ok(()));
    assert!(me.release_wait_thread(&mut k).is_err());
    assert!(me.irq_release_wait_thread(&mut k).is_err());
    assert!(me.irq_resume(&mut k).is_err());
    rotate_ready_queue(&mut k, 0);
    assert_eq!(ffi::rotate_thread_ready_queue(&mut k, 128).unwrap_err().code, E_REJECTED);
    assert_eq!(ffi::terminate_thread(&mut k, tid), Ok(()));
    assert_eq!(ffi::delete_thread(&mut k, tid), Ok(()));
    assert!(ffi::refer_thread_status(&k, tid).is_err());
}

#[test]
fn wakeups_count_until_cancelled() {
    let mut k = Kernel::new();
    let params = ThreadParam {
        status: 0,
        stack_size: 1024,
        initial_priority: 20,
        current_priority: 0,
        attr: 0,
        option: 0,
    };
    let tid = k.create_thread(params);
    k.start_thread(tid);
    assert_eq!(k.wakeup_thread(tid), tid);
    assert_eq!(k.wakeup_thread(0), E_REJECTED);
    assert_eq!(k.refer_thread_status(tid).1.wakeup_count, 1);
    assert_eq!(k.cancel_wakeup_thread(tid), tid);
    assert_eq!(k.refer_thread_status(tid).1.wakeup_count, 0);
}

#[test]
fn unwind_boundary_returns_the_value() {
    assert!(matches!(unwind_boundary(|| 5u8), Ok(5)));
}

#[test]
fn spawned_thread_id_is_free_after_spawn() {
    let mut k = Kernel::new();
    let h = spawn(&mut k, || 1u8).unwrap();
    let tid = h.thread().id();
    assert_ne!(tid, 0);
    assert_eq!(k.refer_thread_status(tid).0, E_REJECTED);
    assert!(matches!(h.join(&mut k), Ok(1)));
    assert_eq!(k.refer_thread_status(0).0, 0);
}
