use rps2_sync::ffi::{self, handle_res, handle_res_none, Error, Syscall};
use rps2_sync::kernel::{Kernel, E_REJECTED, MAX_SEMAS};
use rps2_sync::os::SemaParam;
use rps2_sync::sema::{Sema, SemaBuilder, COUNT_LIMIT, DEFAULT_MAX_COUNT};

#[test]
fn negative_status_is_an_error() {
    assert_eq!(handle_res(5, Syscall::WaitSema), Ok(5));
    assert_eq!(handle_res(0, Syscall::WaitSema), Ok(0));
    assert_eq!(
        handle_res(-3, Syscall::PollSema),
        Err(Error { syscall: Syscall::PollSema, code: -3 })
    );
    assert_eq!(handle_res_none(1, Syscall::SignalSema), Ok(()));
    assert_eq!(
        handle_res_none(-1, Syscall::SignalSema),
        Err(Error::new(Syscall::SignalSema, -1))
    );
}

#[test]
fn sema_builder_defaults_and_clamps() {
    let mut k = Kernel::new();
    let s = Sema::new(&mut k).unwrap();
    let p = k.refer_sema_status(s.id()).1;
    assert_eq!((p.count, p.max_count, p.init_count), (0, DEFAULT_MAX_COUNT as i32, 0));

    let s2 = SemaBuilder::new().max_count(u32::MAX).init_count(u32::MAX).build(&mut k).unwrap();
    let p = ffi::refer_sema_status(&k, s2.id()).unwrap();
    assert_eq!((p.count, p.max_count), (COUNT_LIMIT as i32, COUNT_LIMIT as i32));
}

#[test]
fn sema_builder_rejected_counts() {
    let mut k = Kernel::new();
    let reject = Err(Error { syscall: Syscall::CreateSema, code: E_REJECTED });
    assert_eq!(SemaBuilder::default().max_count(0).build(&mut k).map(|s| s.id()), reject);
    assert_eq!(
        SemaBuilder::default().max_count(2).init_count(3).build(&mut k).map(|s| s.id()),
        reject
    );
}

#[test]
fn semaphore_wait_signal_poll_delete() {
    let mut k = Kernel::new();
    let s = Sema::builder().init_count(1).max_count(2).build(&mut k).unwrap();
    s.signal(&mut k);
    assert_eq!(k.refer_sema_status(s.id()).1.count, 2);
    assert_eq!(ffi::signal_sema(&mut k, s.id()).unwrap_err().syscall, Syscall::SignalSema);
    s.wait(&mut k);
    assert!(s.poll(&mut k));
    assert!(!s.poll(&mut k));
    assert!(!s.irq_poll(&mut k));
    s.irq_signal(&mut k);
    assert!(s.irq_poll(&mut k));
    let id = s.id();
    s.delete(&mut k);
    assert_eq!(ffi::wait_sema(&mut k, id).unwrap_err().syscall, Syscall::WaitSema);
    assert_eq!(ffi::poll_sema(&mut k, id).unwrap_err().code, E_REJECTED);
    assert_eq!(ffi::delete_sema(&mut k, id).unwrap_err().syscall, Syscall::DeleteSema);
}

#[test]
fn sema_raw_round_trip_and_irq_delete() {
    let mut k = Kernel::new();
    let s = Sema::new(&mut k).unwrap();
    let id = Sema::into_raw(s);
    assert_eq!(k.refer_sema_status(id).0, id);
    let s = Sema::from_raw(id);
    s.irq_delete(&mut k);
    assert_eq!(k.refer_sema_status(id).0, E_REJECTED);
}

#[test]
fn kernel_sema_table_fills_and_reuses_slots() {
    let mut k = Kernel::new();
    let p = SemaParam { count: 0, max_count: 1, init_count: 0, attr: 0, option: 0 };
    for i in 0..MAX_SEMAS as i32 {
        assert_eq!(k.create_sema(p), i);
    }
    assert_eq!(k.create_sema(p), E_REJECTED);
    assert_eq!(k.delete_sema(7), 7);
    assert_eq!(k.create_sema(p), 7);
}

#[test]
fn kernel_interrupt_flag() {
    let mut k = Kernel::new();
    assert!(k.are_interrupts_enabled());
    k.disable_interrupts();
    assert!(!k.are_interrupts_enabled());
    k.enable_interrupts();
    assert!(k.are_interrupts_enabled());
    assert_eq!(k.get_thread_id(), 0);
}

#[test]
fn interrupt_context_syscalls() {
    let mut k = Kernel::new();
    let sid = ffi::create_sema(
        &mut k,
        SemaParam { count: 0, max_count: 3, init_count: 1, attr: 0, option: 0 },
    )
    .unwrap();
    assert_eq!(ffi::irq_signal_sema(&mut k, sid), Ok(()));
    assert_eq!(ffi::irq_refer_sema_status(&k, sid).unwrap().count, 2);
    assert_eq!(ffi::irq_poll_sema(&mut k, sid), Ok(()));
    assert_eq!(ffi::irq_delete_sema(&mut k, sid), Ok(()));
    assert_eq!(
        ffi::irq_refer_sema_status(&k, sid),
        Err(Error { syscall: Syscall::ReferSemaStatus, code: E_REJECTED })
    );

    let params = rps2_sync::os::ThreadParam {
        status: 0,
        stack_size: 2048,
        initial_priority: 30,
        current_priority: 0,
        attr: 0,
        option: 0,
    };
    let tid = ffi::create_thread(&mut k, params).unwrap();
    assert_eq!(ffi::irq_change_thread_priority(&mut k, tid, 40), Ok(()));
    assert_eq!(ffi::irq_refer_thread_status(&k, tid).unwrap().current_priority, 40);
    assert_eq!(ffi::change_thread_priority(&mut k, tid, 200).unwrap_err().syscall, Syscall::ChangeThreadPriority);
    assert_eq!(ffi::irq_terminate_thread(&mut k, tid).unwrap_err().syscall, Syscall::TerminateThread);
    assert_eq!(ffi::start_thread(&mut k, tid), Ok(()));
    assert_eq!(ffi::start_thread(&mut k, tid).unwrap_err().syscall, Syscall::StartThread);
    assert_eq!(ffi::irq_cancel_wakeup_thread(&mut k, tid), Ok(()));
    assert!(ffi::irq_release_wait_thread(&mut k, tid).is_err());
    assert_eq!(ffi::delete_thread(&mut k, tid).unwrap_err().code, E_REJECTED);
    assert_eq!(ffi::irq_terminate_thread(&mut k, tid), Ok(()));
    assert_eq!(ffi::delete_thread(&mut k, tid), Ok(()));
    assert_eq!(ffi::get_thread_id(&k), 0);
}
