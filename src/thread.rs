//! Threads: spawning a closure on a kernel thread with its own stack, joining
//! it through a one-shot result packet, and handles on kernel threads.
//!
//! A started thread runs to its end before `spawn` returns, as it does under
//! the kernel's scheduler when it outranks its parent; a joiner cannot tell
//! this from a later run, since `join` waits for the packet either way.
use vstd::prelude::*;
use crate::ffi::{self, rejected, Syscall};
use crate::kernel::Kernel;
use crate::os::{SemaParam, ThreadParam};
use crate::sema::Sema;
use crate::thread_status::DORMANT;

verus! {

pub const DEFAULT_STACK_SIZE: u32 = 64 * 1024;

pub const MIN_STACK_SIZE: u32 = 512;

pub const MAX_STACK_SIZE: u32 = 1024 * 1024;

pub const DEFAULT_PRIORITY: u32 = 64;

pub const MIN_PRIORITY: u32 = 1;

pub const MAX_PRIORITY: u32 = 127;

/// Alignment of a thread's stack buffer.
pub const STACK_ALIGN: usize = 16;

pub open spec fn clamp_spec(v: u32, lo: u32, hi: u32) -> u32 {
    if v < lo {
        lo
    } else if v > hi {
        hi
    } else {
        v
    }
}

fn clamp(v: u32, lo: u32, hi: u32) -> (r: u32)
    ensures
        r == clamp_spec(v, lo, hi),
{
    if v < lo {
        lo
    } else if v > hi {
        hi
    } else {
        v
    }
}

/// What a joiner receives in place of a value when the thread panicked.
pub struct Payload {
    pub message: String,
}

pub type Result<T> = core::result::Result<T, Payload>;

/// Runs `f` at a thread's boundary. This build links no unwinding engine, so
/// nothing is caught: `f` runs and its value comes back as `Ok`.
pub fn unwind_boundary<F: FnOnce() -> R, R>(f: F) -> (r: Result<R>)
    requires
        f.requires(()),
    ensures
        (r matches Ok(v) && f.ensures((), v)),
{
    Ok(f())
}

/// Whether the running thread is unwinding; never, in a build without an
/// unwinding engine.
pub fn panicking() -> (r: bool)
    ensures
        !r,
{
    false
}

/// The stack size and priority of a thread to spawn: 64 KiB and 64 unless set.
#[derive(Debug, Clone, Copy)]
pub struct Builder {
    stack_size: u32,
    priority: u32,
}

impl Builder {
    pub closed spec fn stack_size_spec(&self) -> u32 {
        self.stack_size
    }

    pub closed spec fn priority_spec(&self) -> u32 {
        self.priority
    }

    /// The stack size is within `[MIN_STACK_SIZE, MAX_STACK_SIZE]` and the
    /// priority at most `MAX_PRIORITY`: the kernel accepts every builder.
    #[verifier::type_invariant]
    spec fn inv(&self) -> bool {
        &&& MIN_STACK_SIZE <= self.stack_size <= MAX_STACK_SIZE
        &&& self.priority <= MAX_PRIORITY
    }

    pub fn new() -> (r: Builder)
        ensures
            r.stack_size_spec() == DEFAULT_STACK_SIZE,
            r.priority_spec() == DEFAULT_PRIORITY,
    {
        Builder { stack_size: DEFAULT_STACK_SIZE, priority: DEFAULT_PRIORITY }
    }

    /// The builder of a thread at the kernel's top priority.
    pub(crate) fn top_thread(self) -> (r: Builder)
        ensures
            r.stack_size_spec() == self.stack_size_spec(),
            r.priority_spec() == 0,
    {
        proof {
            use_type_invariant(&self);
        }
        Builder { priority: 0, ..self }
    }

    /// Sets the stack size, clamped to `[MIN_STACK_SIZE, MAX_STACK_SIZE]`.
    pub fn stack_size(self, size: u32) -> (r: Builder)
        ensures
            r.stack_size_spec() == clamp_spec(size, MIN_STACK_SIZE, MAX_STACK_SIZE),
            r.priority_spec() == self.priority_spec(),
    {
        proof {
            use_type_invariant(&self);
        }
        Builder { stack_size: clamp(size, MIN_STACK_SIZE, MAX_STACK_SIZE), ..self }
    }

    /// Sets the priority, clamped to `[MIN_PRIORITY, MAX_PRIORITY]`.
    pub fn priority(self, priority: u32) -> (r: Builder)
        ensures
            r.priority_spec() == clamp_spec(priority, MIN_PRIORITY, MAX_PRIORITY),
            r.stack_size_spec() == self.stack_size_spec(),
    {
        proof {
            use_type_invariant(&self);
        }
        Builder { priority: clamp(priority, MIN_PRIORITY, MAX_PRIORITY), ..self }
    }

    /// Runs `f` on a new kernel thread, whose id was free before the call and
    /// is free again after it. Fails, with every resource taken so far given
    /// back, when the kernel has no room for the thread. No unwinding engine
    /// is linked, so a panic in `f` is not caught: it propagates out of
    /// `spawn` to the spawner, and the packet only ever holds `Ok`.
    pub fn spawn<F: FnOnce() -> T, T>(self, k: &mut Kernel, f: F) -> (r: ffi::Result<JoinHandle<T>>)
        requires
            old(k).wf(),
            old(k).sema_room(),
            f.requires(()),
        ensures
            final(k).wf(),
            final(k).current_id() == old(k).current_id(),
            final(k).interrupts_enabled() == old(k).interrupts_enabled(),
            final(k).thread_map() == old(k).thread_map(),
            final(k).thread_slots_left() + 1 >= old(k).thread_slots_left(),
            final(k).sema_slots_left() + 1 >= old(k).sema_slots_left(),
            r is Ok <==> old(k).thread_room(),
            r matches Err(e) ==> e == rejected(Syscall::CreateThread) && final(k).sema_map()
                == old(k).sema_map(),
            r matches Ok(h) ==> h.wf(final(k)) && h.finished(),
            r matches Ok(h) ==> (h.result() matches Ok(v) && f.ensures((), v)),
            r matches Ok(h) ==> !old(k).has_sema(h.packet_sid()),
            r matches Ok(h) ==> !old(k).has_thread(h.tid_spec()) && !final(k).has_thread(h.tid_spec()),
            r matches Ok(h) ==> final(k).sema_map() == old(k).sema_map().insert(
                h.packet_sid(),
                signalled_packet(),
            ),
    {
        raw_spawn(self, k, f)
    }
}

impl Default for Builder {
    fn default() -> (r: Builder)
        ensures
            r.stack_size_spec() == DEFAULT_STACK_SIZE,
            r.priority_spec() == DEFAULT_PRIORITY,
    {
        Builder::new()
    }
}

/// The packet semaphore once the thread has stored its result: binary, signalled.
pub open spec fn signalled_packet() -> SemaParam {
    SemaParam { count: 1, max_count: 1, init_count: 0, attr: 0, option: 0 }
}

/// Runs `f` on a new thread with the default builder; see [`Builder::spawn`],
/// also for how a panic in `f` propagates.
pub fn spawn<F: FnOnce() -> T, T>(k: &mut Kernel, f: F) -> (r: ffi::Result<JoinHandle<T>>)
    requires
        old(k).wf(),
        old(k).sema_room(),
        f.requires(()),
    ensures
        final(k).wf(),
        final(k).current_id() == old(k).current_id(),
        final(k).interrupts_enabled() == old(k).interrupts_enabled(),
        final(k).thread_map() == old(k).thread_map(),
        final(k).thread_slots_left() + 1 >= old(k).thread_slots_left(),
        final(k).sema_slots_left() + 1 >= old(k).sema_slots_left(),
        r is Ok <==> old(k).thread_room(),
        r matches Err(e) ==> e == rejected(Syscall::CreateThread) && final(k).sema_map()
            == old(k).sema_map(),
        r matches Ok(h) ==> h.wf(final(k)) && h.finished(),
        r matches Ok(h) ==> (h.result() matches Ok(v) && f.ensures((), v)),
        r matches Ok(h) ==> !old(k).has_sema(h.packet_sid()),
        r matches Ok(h) ==> !old(k).has_thread(h.tid_spec()) && !final(k).has_thread(h.tid_spec()),
        r matches Ok(h) ==> final(k).sema_map() == old(k).sema_map().insert(
            h.packet_sid(),
            signalled_packet(),
        ),
{
    Builder::new().spawn(k, f)
}

/// The running thread.
pub fn current(k: &Kernel) -> (r: Thread)
    ensures
        r.id_spec() == k.current_id(),
{
    Thread::current(k)
}

/// Sleeps until woken; a pending wakeup must be there to use up, as no other
/// thread is left to wake the caller.
pub fn sleep(k: &mut Kernel)
    requires
        old(k).wf(),
        old(k).status_of(old(k).current_id()).wakeup_count > 0,
    ensures
        final(k).thread_step(old(k)),
        final(k).thread_map() == old(k).thread_map().insert(
            old(k).current_id(),
            crate::os::ThreadStatus {
                wakeup_count: (old(k).status_of(old(k).current_id()).wakeup_count - 1) as u32,
                ..old(k).status_of(old(k).current_id())
            },
        ),
{
    let _ = ffi::sleep_thread(k);
}

/// Rotates the ready queue of `priority`, clamped to `[MIN_PRIORITY, MAX_PRIORITY]`.
pub fn rotate_ready_queue(k: &mut Kernel, priority: u32)
    requires
        old(k).wf(),
    ensures
        final(k).thread_step(old(k)),
        final(k).thread_map() == old(k).thread_map(),
{
    let priority = clamp(priority, MIN_PRIORITY, MAX_PRIORITY);
    let r = ffi::rotate_thread_ready_queue(k, priority as i32);
    proof {
        assert(r is Ok);
    }
}

/// The size and alignment of a thread's stack buffer.
#[derive(Debug, Clone, Copy, PartialEq, Eq, Structural)]
pub struct StackLayout {
    pub size: usize,
    pub align: usize,
}

/// A thread's stack buffer, owned until the thread no longer runs on it.
struct StackHandle {
    mem: Vec<u8>,
    size: u32,
}

impl StackHandle {
    closed spec fn size_spec(&self) -> u32 {
        self.size
    }

    fn allocate(size: u32) -> (r: StackHandle)
        ensures
            r.size_spec() == size,
    {
        let layout = StackHandle::layout(size);
        StackHandle { mem: Vec::with_capacity(layout.size), size }
    }

    fn dealloc(self) {
        let StackHandle { mem: _, size: _ } = self;
    }

    pub fn layout(size: u32) -> (r: StackLayout)
        ensures
            r.size == size,
            r.align == STACK_ALIGN,
    {
        StackLayout { size: size as usize, align: STACK_ALIGN }
    }
}

/// The one-shot slot a thread leaves its result in, and the semaphore it
/// signals once the result is there.
struct Packet<T> {
    sema: Sema,
    ret: Option<Result<T>>,
}

/// The spawner's hold on a thread: its id, its result packet and its stack.
/// A handle dropped without `join` or `terminate` frees the stack but leaves
/// the packet's semaphore in the kernel.
pub struct JoinHandle<T> {
    tid: i32,
    packet: Packet<T>,
    stack: StackHandle,
}

impl<T> JoinHandle<T> {
    pub closed spec fn tid_spec(&self) -> int {
        self.tid as int
    }

    /// The id of the packet's semaphore.
    pub closed spec fn packet_sid(&self) -> int {
        self.packet.sema.sid()
    }

    /// The thread has stored its result.
    pub closed spec fn finished(&self) -> bool {
        self.packet.ret is Some
    }

    /// The result the thread stored.
    pub closed spec fn result(&self) -> Result<T> {
        self.packet.ret->Some_0
    }

    /// The packet's semaphore is live and binary, and signalled exactly when
    /// the result is stored.
    pub open spec fn wf(&self, k: &Kernel) -> bool {
        &&& k.has_sema(self.packet_sid())
        &&& k.sema_map()[self.packet_sid()].max_count == 1
        &&& k.sema_count(self.packet_sid()) == if self.finished() {
            1int
        } else {
            0int
        }
    }

    pub fn thread(&self) -> (r: Thread)
        ensures
            r.id_spec() == self.tid_spec(),
    {
        Thread(self.tid)
    }

    /// The kernel thread is gone or dormant.
    pub fn is_finished(&self, k: &Kernel) -> (r: bool)
        requires
            k.wf(),
        ensures
            r == (!k.has_thread(self.tid_spec()) || (k.status_of(self.tid_spec()).status & DORMANT)
                != 0),
    {
        match ffi::refer_thread_status(k, self.tid) {
            Ok(status) => (status.status & DORMANT) != 0,
            Err(_) => true,
        }
    }

    /// Waits for the packet, takes the result, makes sure the kernel thread
    /// is stopped and removed, then frees the stack and the packet. The result
    /// is the closure's value; `Err` would carry a panic caught at the thread's
    /// boundary, which a build without an unwinding engine never produces.
    pub fn join(self, k: &mut Kernel) -> (r: Result<T>)
        requires
            old(k).wf(),
            self.wf(old(k)),
            self.finished(),
        ensures
            final(k).wf(),
            final(k).current_id() == old(k).current_id(),
            final(k).interrupts_enabled() == old(k).interrupts_enabled(),
            final(k).thread_slots_left() == old(k).thread_slots_left(),
            final(k).sema_slots_left() == old(k).sema_slots_left(),
            final(k).sema_map() == old(k).sema_map().remove(self.packet_sid()),
            final(k).thread_map() == reaped(old(k), self.tid_spec()),
            r == self.result(),
    {
        let JoinHandle { tid, packet, stack } = self;
        let Packet { sema, ret } = packet;
        sema.wait(k);
        let ret = ret.unwrap();
        reap(k, tid);
        stack.dealloc();
        sema.delete(k);
        ret
    }

    /// Stops and removes the kernel thread wherever it is, then frees the
    /// stack and the packet. What the thread held is not given back.
    pub fn terminate(self, k: &mut Kernel)
        requires
            old(k).wf(),
            self.wf(old(k)),
        ensures
            final(k).wf(),
            final(k).current_id() == old(k).current_id(),
            final(k).interrupts_enabled() == old(k).interrupts_enabled(),
            final(k).thread_slots_left() == old(k).thread_slots_left(),
            final(k).sema_slots_left() == old(k).sema_slots_left(),
            final(k).sema_map() == old(k).sema_map().remove(self.packet_sid()),
            final(k).thread_map() == reaped(old(k), self.tid_spec()),
    {
        let JoinHandle { tid, packet, stack } = self;
        reap(k, tid);
        stack.dealloc();
        let Packet { sema, ret: _ } = packet;
        sema.delete(k);
    }
}

/// The thread table once `tid` is stopped and removed; the running thread
/// cannot be.
pub open spec fn reaped(k: &Kernel, tid: int) -> Map<int, crate::os::ThreadStatus> {
    if k.has_thread(tid) && tid != k.current_id() {
        k.thread_map().remove(tid)
    } else {
        k.thread_map()
    }
}

/// Terminates, then deletes, thread `tid`; either call may find nothing to do.
fn reap(k: &mut Kernel, tid: i32)
    requires
        old(k).wf(),
    ensures
        final(k).thread_step(old(k)),
        final(k).thread_map() == reaped(old(k), tid as int),
{
    let _ = ffi::terminate_thread(k, tid);
    let _ = ffi::delete_thread(k, tid);
    proof {
        if old(k).has_thread(tid as int) && tid != old(k).current_id() {
            assert(k.thread_map() =~= old(k).thread_map().remove(tid as int));
        }
    }
}

fn raw_spawn<F: FnOnce() -> T, T>(builder: Builder, k: &mut Kernel, f: F) -> (r: ffi::Result<
    JoinHandle<T>,
>)
    requires
        old(k).wf(),
        old(k).sema_room(),
        f.requires(()),
    ensures
        final(k).wf(),
        final(k).current_id() == old(k).current_id(),
        final(k).interrupts_enabled() == old(k).interrupts_enabled(),
        final(k).thread_map() == old(k).thread_map(),
        final(k).thread_slots_left() + 1 >= old(k).thread_slots_left(),
        final(k).sema_slots_left() + 1 >= old(k).sema_slots_left(),
        r is Ok <==> old(k).thread_room(),
        r matches Err(e) ==> e == rejected(Syscall::CreateThread) && final(k).sema_map()
            == old(k).sema_map(),
        r matches Ok(h) ==> h.wf(final(k)) && h.finished(),
        r matches Ok(h) ==> (h.result() matches Ok(v) && f.ensures((), v)),
        r matches Ok(h) ==> !old(k).has_sema(h.packet_sid()),
        r matches Ok(h) ==> !old(k).has_thread(h.tid_spec()) && !final(k).has_thread(h.tid_spec()),
        r matches Ok(h) ==> final(k).sema_map() == old(k).sema_map().insert(
            h.packet_sid(),
            signalled_packet(),
        ),
{
    let sema = match Sema::builder().init_count(0).max_count(1).build(k) {
        Ok(s) => s,
        Err(_) => {
            proof {
                assert(false);
            }
            Sema::from_raw(0)
        },
    };
    proof {
        k.lemma_thread_room_frame(old(k));
    }
    let mut packet = Packet { sema, ret: None };
    match raw_spawn2(builder, k, &mut packet, f) {
        Ok((tid, stack)) => Ok(JoinHandle { tid, packet, stack }),
        Err(e) => {
            let Packet { sema, ret: _ } = packet;
            sema.delete(k);
            proof {
                assert(k.sema_map() =~= old(k).sema_map());
            }
            Err(e)
        },
    }
}

/// The entry point of a spawned thread: runs the closure at the unwind
/// boundary, stores the result, signals the packet, and ends the thread.
fn launcher<F: FnOnce() -> T, T>(k: &mut Kernel, tid: i32, packet: &mut Packet<T>, f: F)
    requires
        old(k).wf(),
        f.requires(()),
        old(k).has_sema(old(packet).sema.sid()),
        old(k).sema_map()[old(packet).sema.sid()].max_count == 1,
        old(k).sema_count(old(packet).sema.sid()) == 0,
        old(k).has_thread(tid as int),
        tid != old(k).current_id(),
        old(k).status_of(tid as int).status != DORMANT,
    ensures
        final(k).wf(),
        final(k).current_id() == old(k).current_id(),
        final(k).interrupts_enabled() == old(k).interrupts_enabled(),
        final(k).thread_slots_left() == old(k).thread_slots_left(),
        final(k).sema_slots_left() == old(k).sema_slots_left(),
        final(k).thread_map() == old(k).thread_map().remove(tid as int),
        final(k).sema_map() == old(k).with_count(old(packet).sema.sid(), 1),
        final(packet).sema == old(packet).sema,
        (final(packet).ret matches Some(Ok(v)) && f.ensures((), v)),
{
    let ret = unwind_boundary(f);
    packet.ret = Some(ret);
    packet.sema.signal(k);
    let _ = k.exit_delete_thread(tid);
}

fn raw_spawn2<F: FnOnce() -> T, T>(builder: Builder, k: &mut Kernel, packet: &mut Packet<T>, f: F) -> (r:
    ffi::Result<(i32, StackHandle)>)
    requires
        old(k).wf(),
        f.requires(()),
        old(packet).ret is None,
        old(k).has_sema(old(packet).sema.sid()),
        old(k).sema_map()[old(packet).sema.sid()].max_count == 1,
        old(k).sema_count(old(packet).sema.sid()) == 0,
    ensures
        final(k).wf(),
        final(k).current_id() == old(k).current_id(),
        final(k).interrupts_enabled() == old(k).interrupts_enabled(),
        final(k).thread_map() == old(k).thread_map(),
        final(k).thread_slots_left() + 1 >= old(k).thread_slots_left(),
        final(k).sema_slots_left() == old(k).sema_slots_left(),
        final(packet).sema == old(packet).sema,
        r is Ok <==> old(k).thread_room(),
        r matches Err(e) ==> e == rejected(Syscall::CreateThread) && final(k).sema_map()
            == old(k).sema_map(),
        r is Ok ==> final(k).sema_map() == old(k).with_count(old(packet).sema.sid(), 1),
        r matches Ok(p) ==> !old(k).has_thread(p.0 as int),
        r is Ok ==> (final(packet).ret matches Some(Ok(v)) && f.ensures((), v)),
{
    proof {
        use_type_invariant(&builder);
    }
    let stack = StackHandle::allocate(builder.stack_size);
    let params = ThreadParam {
        status: 0,
        stack_size: builder.stack_size as i32,
        initial_priority: builder.priority as i32,
        current_priority: 0,
        attr: 0,
        option: 0,
    };
    let tid = match ffi::create_thread(k, params) {
        Ok(tid) => tid,
        Err(e) => {
            stack.dealloc();
            return Err(e);
        },
    };
    match ffi::start_thread(k, tid) {
        Ok(()) => {},
        Err(e) => {
            let _ = ffi::delete_thread(k, tid);
            stack.dealloc();
            proof {
                assert(false);
            }
            return Err(e);
        },
    }
    proof {
        old(k).lemma_wf();
        assert(k.has_sema(packet.sema.sid()));
    }
    launcher(k, tid, packet, f);
    proof {
        assert(k.thread_map() =~= old(k).thread_map());
    }
    Ok((tid, stack))
}

/// A handle on a kernel thread, by id.
#[derive(Debug, Clone, Copy)]
pub struct Thread(i32);

impl Thread {
    pub closed spec fn id_spec(&self) -> int {
        self.0 as int
    }

    pub fn id(&self) -> (r: i32)
        ensures
            r == self.id_spec(),
    {
        self.0
    }

    pub fn current(k: &Kernel) -> (r: Thread)
        ensures
            r.id_spec() == k.current_id(),
    {
        Thread(ffi::get_thread_id(k))
    }

    /// The thread's current priority.
    pub fn priority(&self, k: &Kernel) -> (r: ffi::Result<u32>)
        requires
            k.wf(),
        ensures
            r is Ok <==> k.has_thread(self.id_spec()),
            r is Err ==> r == Err::<u32, ffi::Error>(rejected(Syscall::ReferThreadStatus)),
            r matches Ok(p) ==> p == k.status_of(self.id_spec()).current_priority,
    {
        proof {
            k.lemma_wf();
        }
        match ffi::refer_thread_status(k, self.0) {
            Ok(status) => Ok(status.current_priority as u32),
            Err(e) => Err(e),
        }
    }

    /// Sets the priority, clamped to `[MIN_PRIORITY, MAX_PRIORITY]`.
    pub fn change_priority(&self, k: &mut Kernel, priority: u32) -> (r: ffi::Result<()>)
        requires
            old(k).wf(),
        ensures
            final(k).thread_step(old(k)),
            r is Ok <==> old(k).has_thread(self.id_spec()),
            r is Err ==> r == Err::<(), ffi::Error>(rejected(Syscall::ChangeThreadPriority))
                && final(k).thread_map() == old(k).thread_map(),
            r is Ok ==> final(k).thread_map() == old(k).with_priority(
                self.id_spec(),
                clamp_spec(priority, MIN_PRIORITY, MAX_PRIORITY) as int,
            ),
    {
        let priority = clamp(priority, MIN_PRIORITY, MAX_PRIORITY);
        ffi::change_thread_priority(k, self.0, priority as i32)
    }

    pub fn suspend(&self, k: &mut Kernel) -> (r: ffi::Result<()>)
        requires
            old(k).wf(),
        ensures
            final(k).thread_step(old(k)),
            r is Ok <==> old(k).can_suspend(self.id_spec()),
            r is Err ==> r == Err::<(), ffi::Error>(rejected(Syscall::SuspendThread))
                && final(k).thread_map() == old(k).thread_map(),
            r is Ok ==> final(k).thread_map() == old(k).suspended(self.id_spec()),
    {
        ffi::suspend_thread(k, self.0)
    }

    pub fn resume(&self, k: &mut Kernel) -> (r: ffi::Result<()>)
        requires
            old(k).wf(),
        ensures
            final(k).thread_step(old(k)),
            r is Ok <==> old(k).can_resume(self.id_spec()),
            r is Err ==> r == Err::<(), ffi::Error>(rejected(Syscall::ResumeThread))
                && final(k).thread_map() == old(k).thread_map(),
            r is Ok ==> final(k).thread_map() == old(k).resumed(self.id_spec()),
    {
        ffi::resume_thread(k, self.0)
    }

    pub fn wakeup(&self, k: &mut Kernel) -> (r: ffi::Result<()>)
        requires
            old(k).wf(),
        ensures
            final(k).thread_step(old(k)),
            r is Ok <==> old(k).can_wakeup(self.id_spec()),
            r is Err ==> r == Err::<(), ffi::Error>(rejected(Syscall::WakeupThread))
                && final(k).thread_map() == old(k).thread_map(),
            r is Ok ==> final(k).thread_map() == old(k).woken(self.id_spec()),
    {
        ffi::wakeup_thread(k, self.0)
    }

    pub fn cancel_wakeup(&self, k: &mut Kernel) -> (r: ffi::Result<()>)
        requires
            old(k).wf(),
        ensures
            final(k).thread_step(old(k)),
            r is Ok <==> old(k).has_thread(self.id_spec()),
            r is Err ==> r == Err::<(), ffi::Error>(rejected(Syscall::CancelWakeupThread))
                && final(k).thread_map() == old(k).thread_map(),
            r is Ok ==> final(k).thread_map() == old(k).wakeups_cancelled(self.id_spec()),
    {
        ffi::cancel_wakeup_thread(k, self.0)
    }

    pub fn release_wait_thread(&self, k: &mut Kernel) -> (r: ffi::Result<()>)
        requires
            old(k).wf(),
        ensures
            final(k).thread_step(old(k)),
            r is Ok <==> old(k).can_release(self.id_spec()),
            r is Err ==> r == Err::<(), ffi::Error>(rejected(Syscall::ReleaseWaitThread))
                && final(k).thread_map() == old(k).thread_map(),
            r is Ok ==> final(k).thread_map() == old(k).released(self.id_spec()),
    {
        ffi::release_wait_thread(k, self.0)
    }

    /// As [`Thread::resume`], from interrupt context.
    pub fn irq_resume(&self, k: &mut Kernel) -> (r: ffi::Result<()>)
        requires
            old(k).wf(),
        ensures
            final(k).thread_step(old(k)),
            r is Ok <==> old(k).can_resume(self.id_spec()),
            r is Err ==> r == Err::<(), ffi::Error>(rejected(Syscall::ResumeThread))
                && final(k).thread_map() == old(k).thread_map(),
            r is Ok ==> final(k).thread_map() == old(k).resumed(self.id_spec()),
    {
        ffi::irq_resume_thread(k, self.0)
    }

    /// As [`Thread::cancel_wakeup`], from interrupt context.
    pub fn irq_cancel_wakeup(&self, k: &mut Kernel) -> (r: ffi::Result<()>)
        requires
            old(k).wf(),
        ensures
            final(k).thread_step(old(k)),
            r is Ok <==> old(k).has_thread(self.id_spec()),
            r is Err ==> r == Err::<(), ffi::Error>(rejected(Syscall::CancelWakeupThread))
                && final(k).thread_map() == old(k).thread_map(),
            r is Ok ==> final(k).thread_map() == old(k).wakeups_cancelled(self.id_spec()),
    {
        ffi::irq_cancel_wakeup_thread(k, self.0)
    }

    /// As [`Thread::release_wait_thread`], from interrupt context.
    pub fn irq_release_wait_thread(&self, k: &mut Kernel) -> (r: ffi::Result<()>)
        requires
            old(k).wf(),
        ensures
            final(k).thread_step(old(k)),
            r is Ok <==> old(k).can_release(self.id_spec()),
            r is Err ==> r == Err::<(), ffi::Error>(rejected(Syscall::ReleaseWaitThread))
                && final(k).thread_map() == old(k).thread_map(),
            r is Ok ==> final(k).thread_map() == old(k).released(self.id_spec()),
    {
        ffi::irq_release_wait_thread(k, self.0)
    }
}

} // verus!
