//! Typed system calls: each maps the kernel's signed status to a `Result`.
use vstd::prelude::*;
use crate::kernel::{Kernel, new_sema, new_thread, valid_priority, valid_sema_param, valid_thread_param, E_REJECTED};
use crate::os::{SemaParam, ThreadParam, ThreadStatus};

verus! {

/// The system call that reported an error.
#[derive(Debug, Clone, Copy, PartialEq, Eq, Structural)]
pub enum Syscall {
    CreateThread,
    DeleteThread,
    StartThread,
    TerminateThread,
    ChangeThreadPriority,
    RotateThreadReadyQueue,
    ReleaseWaitThread,
    ReferThreadStatus,
    SleepThread,
    WakeupThread,
    CancelWakeupThread,
    SuspendThread,
    ResumeThread,
    CreateSema,
    DeleteSema,
    SignalSema,
    WaitSema,
    PollSema,
    ReferSemaStatus,
}

/// A request the kernel rejected: which call, and the negative status it gave.
#[derive(Debug, Clone, Copy, PartialEq, Eq, Structural)]
pub struct Error {
    pub syscall: Syscall,
    pub code: i32,
}

impl Error {
    pub fn new(syscall: Syscall, code: i32) -> (r: Error)
        ensures
            r.syscall == syscall,
            r.code == code,
    {
        Error { syscall, code }
    }
}

/// The error for a call that the kernel rejected.
pub open spec fn rejected(syscall: Syscall) -> Error {
    Error { syscall, code: E_REJECTED }
}

pub type Result<T> = core::result::Result<T, Error>;

/// A status is a failure exactly when it is negative; a success carries the status on.
pub fn handle_res(res: i32, syscall: Syscall) -> (r: Result<i32>)
    ensures
        res < 0 ==> r == Err::<i32, Error>(Error { syscall, code: res }),
        res >= 0 ==> r == Ok::<i32, Error>(res),
{
    if res < 0 {
        Err(Error::new(syscall, res))
    } else {
        Ok(res)
    }
}

/// As [`handle_res`], for calls whose success carries no value.
pub fn handle_res_none(res: i32, syscall: Syscall) -> (r: Result<()>)
    ensures
        res < 0 ==> r == Err::<(), Error>(Error { syscall, code: res }),
        res >= 0 ==> r == Ok::<(), Error>(()),
{
    if res < 0 {
        Err(Error::new(syscall, res))
    } else {
        Ok(())
    }
}

/// Creates a semaphore; `Ok` carries its id.
pub fn create_sema(k: &mut Kernel, params: SemaParam) -> (r: Result<i32>)
    requires
        old(k).wf(),
    ensures
        final(k).wf(),
        final(k).same_threads(old(k)),
        r is Ok <==> valid_sema_param(params) && old(k).sema_room(),
        r matches Err(e) ==> e == rejected(Syscall::CreateSema)
            && final(k).same_semas(old(k)),
        r matches Ok(sid) ==> !old(k).has_sema(sid as int),
        r matches Ok(sid) ==> final(k).sema_map() == old(k).sema_map().insert(sid as int, new_sema(params)),
        r matches Ok(sid) ==> final(k).sema_slots_left() + 1 >= old(k).sema_slots_left(),
{
    handle_res(k.create_sema(params), Syscall::CreateSema)
}

pub fn delete_sema(k: &mut Kernel, sid: i32) -> (r: Result<()>)
    requires
        old(k).wf(),
    ensures
        final(k).wf(),
        final(k).same_threads(old(k)),
        final(k).sema_slots_left() == old(k).sema_slots_left(),
        r is Ok <==> old(k).has_sema(sid as int),
        r is Err ==> r == Err::<(), Error>(rejected(Syscall::DeleteSema))
            && final(k).sema_map() == old(k).sema_map(),
        r is Ok ==> final(k).sema_map() == old(k).sema_map().remove(sid as int),
{
    handle_res_none(k.delete_sema(sid), Syscall::DeleteSema)
}

pub fn irq_delete_sema(k: &mut Kernel, sid: i32) -> (r: Result<()>)
    requires
        old(k).wf(),
    ensures
        final(k).wf(),
        final(k).same_threads(old(k)),
        final(k).sema_slots_left() == old(k).sema_slots_left(),
        r is Ok <==> old(k).has_sema(sid as int),
        r is Err ==> r == Err::<(), Error>(rejected(Syscall::DeleteSema))
            && final(k).sema_map() == old(k).sema_map(),
        r is Ok ==> final(k).sema_map() == old(k).sema_map().remove(sid as int),
{
    handle_res_none(k.delete_sema(sid), Syscall::DeleteSema)
}

pub fn signal_sema(k: &mut Kernel, sid: i32) -> (r: Result<()>)
    requires
        old(k).wf(),
    ensures
        final(k).wf(),
        final(k).same_threads(old(k)),
        final(k).sema_slots_left() == old(k).sema_slots_left(),
        r is Ok <==> old(k).can_signal(sid as int),
        r is Err ==> r == Err::<(), Error>(rejected(Syscall::SignalSema))
            && final(k).sema_map() == old(k).sema_map(),
        r is Ok ==> final(k).sema_map() == old(k).with_count(sid as int, old(k).sema_count(sid as int) + 1),
{
    handle_res_none(k.signal_sema(sid), Syscall::SignalSema)
}

pub fn irq_signal_sema(k: &mut Kernel, sid: i32) -> (r: Result<()>)
    requires
        old(k).wf(),
    ensures
        final(k).wf(),
        final(k).same_threads(old(k)),
        final(k).sema_slots_left() == old(k).sema_slots_left(),
        r is Ok <==> old(k).can_signal(sid as int),
        r is Err ==> r == Err::<(), Error>(rejected(Syscall::SignalSema))
            && final(k).sema_map() == old(k).sema_map(),
        r is Ok ==> final(k).sema_map() == old(k).with_count(sid as int, old(k).sema_count(sid as int) + 1),
{
    handle_res_none(k.signal_sema(sid), Syscall::SignalSema)
}

/// Waits on a semaphore; its count must be positive when it is live.
pub fn wait_sema(k: &mut Kernel, sid: i32) -> (r: Result<()>)
    requires
        old(k).wf(),
        old(k).has_sema(sid as int) ==> old(k).sema_count(sid as int) > 0,
    ensures
        final(k).wf(),
        final(k).same_threads(old(k)),
        final(k).sema_slots_left() == old(k).sema_slots_left(),
        r is Ok <==> old(k).has_sema(sid as int),
        r is Err ==> r == Err::<(), Error>(rejected(Syscall::WaitSema))
            && final(k).sema_map() == old(k).sema_map(),
        r is Ok ==> final(k).sema_map() == old(k).with_count(sid as int, old(k).sema_count(sid as int) - 1),
{
    handle_res_none(k.wait_sema(sid), Syscall::WaitSema)
}

pub fn poll_sema(k: &mut Kernel, sid: i32) -> (r: Result<()>)
    requires
        old(k).wf(),
    ensures
        final(k).wf(),
        final(k).same_threads(old(k)),
        final(k).sema_slots_left() == old(k).sema_slots_left(),
        r is Ok <==> old(k).can_take(sid as int),
        r is Err ==> r == Err::<(), Error>(rejected(Syscall::PollSema))
            && final(k).sema_map() == old(k).sema_map(),
        r is Ok ==> final(k).sema_map() == old(k).with_count(sid as int, old(k).sema_count(sid as int) - 1),
{
    handle_res_none(k.poll_sema(sid), Syscall::PollSema)
}

pub fn irq_poll_sema(k: &mut Kernel, sid: i32) -> (r: Result<()>)
    requires
        old(k).wf(),
    ensures
        final(k).wf(),
        final(k).same_threads(old(k)),
        final(k).sema_slots_left() == old(k).sema_slots_left(),
        r is Ok <==> old(k).can_take(sid as int),
        r is Err ==> r == Err::<(), Error>(rejected(Syscall::PollSema))
            && final(k).sema_map() == old(k).sema_map(),
        r is Ok ==> final(k).sema_map() == old(k).with_count(sid as int, old(k).sema_count(sid as int) - 1),
{
    handle_res_none(k.poll_sema(sid), Syscall::PollSema)
}

pub fn refer_sema_status(k: &Kernel, sid: i32) -> (r: Result<SemaParam>)
    requires
        k.wf(),
    ensures
        r is Ok <==> k.has_sema(sid as int),
        r is Err ==> r == Err::<SemaParam, Error>(rejected(Syscall::ReferSemaStatus)),
        r matches Ok(p) ==> p == k.sema_map()[sid as int],
{
    let (res, p) = k.refer_sema_status(sid);
    match handle_res_none(res, Syscall::ReferSemaStatus) {
        Ok(()) => Ok(p),
        Err(e) => Err(e),
    }
}

pub fn start_thread(k: &mut Kernel, tid: i32) -> (r: Result<()>)
    requires
        old(k).wf(),
    ensures
        final(k).thread_step(old(k)),
        r is Ok <==> old(k).can_start(tid as int),
        r is Err ==> r == Err::<(), Error>(rejected(Syscall::StartThread)) && final(k).thread_map() == old(k).thread_map(),
        r is Ok ==> final(k).thread_map() == old(k).started(tid as int),
{
    handle_res_none(k.start_thread(tid), Syscall::StartThread)
}

pub fn terminate_thread(k: &mut Kernel, tid: i32) -> (r: Result<()>)
    requires
        old(k).wf(),
    ensures
        final(k).thread_step(old(k)),
        r is Ok <==> old(k).can_terminate(tid as int),
        r is Err ==> r == Err::<(), Error>(rejected(Syscall::TerminateThread)) && final(k).thread_map() == old(k).thread_map(),
        r is Ok ==> final(k).thread_map() == old(k).terminated(tid as int),
{
    handle_res_none(k.terminate_thread(tid), Syscall::TerminateThread)
}

pub fn irq_terminate_thread(k: &mut Kernel, tid: i32) -> (r: Result<()>)
    requires
        old(k).wf(),
    ensures
        final(k).thread_step(old(k)),
        r is Ok <==> old(k).can_terminate(tid as int),
        r is Err ==> r == Err::<(), Error>(rejected(Syscall::TerminateThread)) && final(k).thread_map() == old(k).thread_map(),
        r is Ok ==> final(k).thread_map() == old(k).terminated(tid as int),
{
    handle_res_none(k.terminate_thread(tid), Syscall::TerminateThread)
}

pub fn release_wait_thread(k: &mut Kernel, tid: i32) -> (r: Result<()>)
    requires
        old(k).wf(),
    ensures
        final(k).thread_step(old(k)),
        r is Ok <==> old(k).can_release(tid as int),
        r is Err ==> r == Err::<(), Error>(rejected(Syscall::ReleaseWaitThread)) && final(k).thread_map() == old(k).thread_map(),
        r is Ok ==> final(k).thread_map() == old(k).released(tid as int),
{
    handle_res_none(k.release_wait_thread(tid), Syscall::ReleaseWaitThread)
}

pub fn irq_release_wait_thread(k: &mut Kernel, tid: i32) -> (r: Result<()>)
    requires
        old(k).wf(),
    ensures
        final(k).thread_step(old(k)),
        r is Ok <==> old(k).can_release(tid as int),
        r is Err ==> r == Err::<(), Error>(rejected(Syscall::ReleaseWaitThread)) && final(k).thread_map() == old(k).thread_map(),
        r is Ok ==> final(k).thread_map() == old(k).released(tid as int),
{
    handle_res_none(k.release_wait_thread(tid), Syscall::ReleaseWaitThread)
}

pub fn wakeup_thread(k: &mut Kernel, tid: i32) -> (r: Result<()>)
    requires
        old(k).wf(),
    ensures
        final(k).thread_step(old(k)),
        r is Ok <==> old(k).can_wakeup(tid as int),
        r is Err ==> r == Err::<(), Error>(rejected(Syscall::WakeupThread)) && final(k).thread_map() == old(k).thread_map(),
        r is Ok ==> final(k).thread_map() == old(k).woken(tid as int),
{
    handle_res_none(k.wakeup_thread(tid), Syscall::WakeupThread)
}

pub fn suspend_thread(k: &mut Kernel, tid: i32) -> (r: Result<()>)
    requires
        old(k).wf(),
    ensures
        final(k).thread_step(old(k)),
        r is Ok <==> old(k).can_suspend(tid as int),
        r is Err ==> r == Err::<(), Error>(rejected(Syscall::SuspendThread)) && final(k).thread_map() == old(k).thread_map(),
        r is Ok ==> final(k).thread_map() == old(k).suspended(tid as int),
{
    handle_res_none(k.suspend_thread(tid), Syscall::SuspendThread)
}

pub fn resume_thread(k: &mut Kernel, tid: i32) -> (r: Result<()>)
    requires
        old(k).wf(),
    ensures
        final(k).thread_step(old(k)),
        r is Ok <==> old(k).can_resume(tid as int),
        r is Err ==> r == Err::<(), Error>(rejected(Syscall::ResumeThread)) && final(k).thread_map() == old(k).thread_map(),
        r is Ok ==> final(k).thread_map() == old(k).resumed(tid as int),
{
    handle_res_none(k.resume_thread(tid), Syscall::ResumeThread)
}

pub fn irq_resume_thread(k: &mut Kernel, tid: i32) -> (r: Result<()>)
    requires
        old(k).wf(),
    ensures
        final(k).thread_step(old(k)),
        r is Ok <==> old(k).can_resume(tid as int),
        r is Err ==> r == Err::<(), Error>(rejected(Syscall::ResumeThread)) && final(k).thread_map() == old(k).thread_map(),
        r is Ok ==> final(k).thread_map() == old(k).resumed(tid as int),
{
    handle_res_none(k.resume_thread(tid), Syscall::ResumeThread)
}

pub fn cancel_wakeup_thread(k: &mut Kernel, tid: i32) -> (r: Result<()>)
    requires
        old(k).wf(),
    ensures
        final(k).thread_step(old(k)),
        r is Ok <==> old(k).has_thread(tid as int),
        r is Err ==> r == Err::<(), Error>(rejected(Syscall::CancelWakeupThread)) && final(k).thread_map() == old(k).thread_map(),
        r is Ok ==> final(k).thread_map() == old(k).wakeups_cancelled(tid as int),
{
    handle_res_none(k.cancel_wakeup_thread(tid), Syscall::CancelWakeupThread)
}

pub fn irq_cancel_wakeup_thread(k: &mut Kernel, tid: i32) -> (r: Result<()>)
    requires
        old(k).wf(),
    ensures
        final(k).thread_step(old(k)),
        r is Ok <==> old(k).has_thread(tid as int),
        r is Err ==> r == Err::<(), Error>(rejected(Syscall::CancelWakeupThread)) && final(k).thread_map() == old(k).thread_map(),
        r is Ok ==> final(k).thread_map() == old(k).wakeups_cancelled(tid as int),
{
    handle_res_none(k.cancel_wakeup_thread(tid), Syscall::CancelWakeupThread)
}

pub fn irq_refer_sema_status(k: &Kernel, sid: i32) -> (r: Result<SemaParam>)
    requires
        k.wf(),
    ensures
        r is Ok <==> k.has_sema(sid as int),
        r is Err ==> r == Err::<SemaParam, Error>(rejected(Syscall::ReferSemaStatus)),
        r matches Ok(p) ==> p == k.sema_map()[sid as int],
{
    refer_sema_status(k, sid)
}

/// Removes a dormant thread other than the running one.
pub fn delete_thread(k: &mut Kernel, tid: i32) -> (r: Result<()>)
    requires
        old(k).wf(),
    ensures
        final(k).thread_step(old(k)),
        r is Ok <==> old(k).can_delete(tid as int),
        r is Err ==> r == Err::<(), Error>(rejected(Syscall::DeleteThread)) && final(k).thread_map() == old(k).thread_map(),
        r is Ok ==> final(k).thread_map() == old(k).thread_map().remove(tid as int),
{
    handle_res_none(k.delete_thread(tid), Syscall::DeleteThread)
}

/// Creates a dormant thread; `Ok` carries its id.
pub fn create_thread(k: &mut Kernel, params: ThreadParam) -> (r: Result<i32>)
    requires
        old(k).wf(),
    ensures
        final(k).wf(),
        final(k).same_semas(old(k)),
        final(k).current_id() == old(k).current_id(),
        final(k).interrupts_enabled() == old(k).interrupts_enabled(),
        r is Ok <==> valid_thread_param(params) && old(k).thread_room(),
        r matches Err(e) ==> e == rejected(Syscall::CreateThread) && final(k).same_threads(old(k)),
        r matches Ok(tid) ==> !old(k).has_thread(tid as int),
        r matches Ok(tid) ==> final(k).thread_map() == old(k).thread_map().insert(tid as int, new_thread(params)),
        r matches Ok(tid) ==> final(k).thread_slots_left() + 1 >= old(k).thread_slots_left(),
{
    handle_res(k.create_thread(params), Syscall::CreateThread)
}

pub fn change_thread_priority(k: &mut Kernel, tid: i32, priority: i32) -> (r: Result<()>)
    requires
        old(k).wf(),
    ensures
        final(k).thread_step(old(k)),
        r is Ok <==> old(k).has_thread(tid as int) && valid_priority(priority as int),
        r is Err ==> r == Err::<(), Error>(rejected(Syscall::ChangeThreadPriority)) && final(k).thread_map() == old(k).thread_map(),
        r is Ok ==> final(k).thread_map() == old(k).with_priority(tid as int, priority as int),
{
    handle_res_none(k.change_thread_priority(tid, priority), Syscall::ChangeThreadPriority)
}

pub fn irq_change_thread_priority(k: &mut Kernel, tid: i32, priority: i32) -> (r: Result<()>)
    requires
        old(k).wf(),
    ensures
        final(k).thread_step(old(k)),
        r is Ok <==> old(k).has_thread(tid as int) && valid_priority(priority as int),
        r is Err ==> r == Err::<(), Error>(rejected(Syscall::ChangeThreadPriority)) && final(k).thread_map() == old(k).thread_map(),
        r is Ok ==> final(k).thread_map() == old(k).with_priority(tid as int, priority as int),
{
    handle_res_none(k.change_thread_priority(tid, priority), Syscall::ChangeThreadPriority)
}

pub fn rotate_thread_ready_queue(k: &mut Kernel, priority: i32) -> (r: Result<()>)
    requires
        old(k).wf(),
    ensures
        final(k).thread_step(old(k)),
        final(k).thread_map() == old(k).thread_map(),
        r is Ok <==> valid_priority(priority as int),
        r is Err ==> r == Err::<(), Error>(rejected(Syscall::RotateThreadReadyQueue)),
{
    handle_res_none(k.rotate_thread_ready_queue(priority), Syscall::RotateThreadReadyQueue)
}

pub fn get_thread_id(k: &Kernel) -> (r: i32)
    ensures
        r == k.current_id(),
{
    k.get_thread_id()
}

pub fn refer_thread_status(k: &Kernel, tid: i32) -> (r: Result<ThreadStatus>)
    requires
        k.wf(),
    ensures
        r is Ok <==> k.has_thread(tid as int),
        r is Err ==> r == Err::<ThreadStatus, Error>(rejected(Syscall::ReferThreadStatus)),
        r matches Ok(st) ==> st == k.status_of(tid as int),
{
    let (res, st) = k.refer_thread_status(tid);
    match handle_res_none(res, Syscall::ReferThreadStatus) {
        Ok(()) => Ok(st),
        Err(e) => Err(e),
    }
}

pub fn irq_refer_thread_status(k: &Kernel, tid: i32) -> (r: Result<ThreadStatus>)
    requires
        k.wf(),
    ensures
        r is Ok <==> k.has_thread(tid as int),
        r is Err ==> r == Err::<ThreadStatus, Error>(rejected(Syscall::ReferThreadStatus)),
        r matches Ok(st) ==> st == k.status_of(tid as int),
{
    refer_thread_status(k, tid)
}

/// Sleeps until woken; a pending wakeup must be there to use up.
pub fn sleep_thread(k: &mut Kernel) -> (r: Result<()>)
    requires
        old(k).wf(),
        old(k).status_of(old(k).current_id()).wakeup_count > 0,
    ensures
        final(k).thread_step(old(k)),
        r is Ok,
        final(k).thread_map() == old(k).thread_map().insert(
            old(k).current_id(),
            ThreadStatus {
                wakeup_count: (old(k).status_of(old(k).current_id()).wakeup_count - 1) as u32,
                ..old(k).status_of(old(k).current_id())
            },
        ),
{
    proof {
        old(k).lemma_wf();
    }
    handle_res_none(k.sleep_thread(), Syscall::SleepThread)
}

} // verus!
