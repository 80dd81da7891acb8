//! The microkernel as an explicit context: a table of counting semaphores, a
//! table of threads, the running thread and the interrupt-enable flag.
//!
//! Every system call is a method that returns the kernel's signed status, where
//! a negative status is a rejection. A call that would block the caller for
//! good (a wait on an empty semaphore, a sleep with no pending wakeup) is ruled
//! out by its `requires`: with no other thread left to signal, it never returns.
use vstd::prelude::*;
use vstd::set_lib::{lemma_int_range, lemma_len_subset, set_int_range};
use crate::os::{SemaParam, ThreadParam, ThreadStatus};
use crate::thread_status::{DORMANT, READY, RUN, SUSPEND, WAIT, WAITSUSPEND};

verus! {

/// Most semaphores the kernel holds at once.
pub const MAX_SEMAS: usize = 256;

/// Most threads the kernel holds at once.
pub const MAX_THREADS: usize = 256;

/// Lowest priority (numerically largest) the kernel accepts.
pub const KERNEL_MAX_PRIORITY: i32 = 127;

/// The status of a rejected call.
pub const E_REJECTED: i32 = -1;

/// Priority of the thread that runs when the kernel starts.
pub const BOOT_PRIORITY: i32 = 0;

pub open spec fn valid_sema_param(p: SemaParam) -> bool {
    &&& 0 <= p.init_count
    &&& 1 <= p.max_count
    &&& p.init_count <= p.max_count
}

/// The semaphore that `create_sema` makes from `p`.
pub open spec fn new_sema(p: SemaParam) -> SemaParam {
    SemaParam {
        count: p.init_count,
        max_count: p.max_count,
        init_count: p.init_count,
        attr: p.attr,
        option: p.option,
    }
}

pub open spec fn sema_ok(s: SemaParam) -> bool {
    0 <= s.count <= s.max_count
}

pub open spec fn valid_priority(prio: int) -> bool {
    0 <= prio <= KERNEL_MAX_PRIORITY
}

pub open spec fn valid_thread_param(p: ThreadParam) -> bool {
    &&& p.stack_size > 0
    &&& valid_priority(p.initial_priority as int)
}

/// The thread that `create_thread` makes from `p`: dormant until started.
pub open spec fn new_thread(p: ThreadParam) -> ThreadStatus {
    ThreadStatus {
        status: DORMANT,
        stack_size: p.stack_size,
        initial_priority: p.initial_priority,
        current_priority: p.initial_priority,
        attr: p.attr,
        option: p.option,
        wait_type: 0,
        wait_id: 0,
        wakeup_count: 0,
    }
}

/// The kernel's state. Ids are table indices; a freed slot is reused by the
/// next object of its kind.
pub struct Kernel {
    semas: Vec<Option<SemaParam>>,
    threads: Vec<Option<ThreadStatus>>,
    current: i32,
    interrupts: bool,
}

impl Kernel {
    /// The live semaphores, by id.
    pub closed spec fn sema_map(&self) -> Map<int, SemaParam> {
        Map::new(
            |sid: int| 0 <= sid < self.semas@.len() && self.semas@[sid] is Some,
            |sid: int| self.semas@[sid]->Some_0,
        )
    }

    /// The live threads, by id.
    pub closed spec fn thread_map(&self) -> Map<int, ThreadStatus> {
        Map::new(
            |tid: int| 0 <= tid < self.threads@.len() && self.threads@[tid] is Some,
            |tid: int| self.threads@[tid]->Some_0,
        )
    }

    /// The id of the running thread.
    pub closed spec fn current_id(&self) -> int {
        self.current as int
    }

    pub closed spec fn interrupts_enabled(&self) -> bool {
        self.interrupts
    }

    /// Table slots for semaphores that were never used yet.
    pub closed spec fn sema_slots_left(&self) -> nat {
        (MAX_SEMAS - self.semas@.len()) as nat
    }

    /// Table slots for threads that were never used yet.
    pub closed spec fn thread_slots_left(&self) -> nat {
        (MAX_THREADS - self.threads@.len()) as nat
    }

    /// A new semaphore finds a slot.
    pub closed spec fn sema_room(&self) -> bool {
        self.semas@.len() < MAX_SEMAS || exists|i: int|
            0 <= i < self.semas@.len() && #[trigger] self.semas@[i] is None
    }

    /// A new thread finds a slot.
    pub closed spec fn thread_room(&self) -> bool {
        self.threads@.len() < MAX_THREADS || exists|i: int|
            0 <= i < self.threads@.len() && #[trigger] self.threads@[i] is None
    }

    pub open spec fn sema(&self, sid: int) -> Option<SemaParam> {
        if self.sema_map().dom().contains(sid) {
            Some(self.sema_map()[sid])
        } else {
            None
        }
    }

    pub open spec fn sema_count(&self, sid: int) -> int {
        self.sema_map()[sid].count as int
    }

    pub open spec fn has_sema(&self, sid: int) -> bool {
        self.sema_map().dom().contains(sid)
    }

    pub open spec fn has_thread(&self, tid: int) -> bool {
        self.thread_map().dom().contains(tid)
    }

    /// A signal on `sid` is accepted: the semaphore is live and below its maximum.
    pub open spec fn can_signal(&self, sid: int) -> bool {
        self.has_sema(sid) && self.sema_count(sid) < self.sema_map()[sid].max_count
    }

    /// A poll on `sid` is accepted: the semaphore is live and its count is positive.
    pub open spec fn can_take(&self, sid: int) -> bool {
        self.has_sema(sid) && self.sema_count(sid) > 0
    }

    /// The semaphore table with the count of `sid` set to `count`.
    pub open spec fn with_count(&self, sid: int, count: int) -> Map<int, SemaParam> {
        self.sema_map().insert(sid, SemaParam { count: count as i32, ..self.sema_map()[sid] })
    }

    /// The semaphore table, the running thread, the interrupt flag and the
    /// thread slots are those of `other`: only thread entries changed.
    pub open spec fn thread_step(&self, other: &Kernel) -> bool {
        &&& self.wf()
        &&& self.same_semas(other)
        &&& self.current_id() == other.current_id()
        &&& self.interrupts_enabled() == other.interrupts_enabled()
        &&& self.thread_slots_left() == other.thread_slots_left()
    }

    pub open spec fn status_of(&self, tid: int) -> ThreadStatus {
        self.thread_map()[tid]
    }

    pub open spec fn can_start(&self, tid: int) -> bool {
        self.has_thread(tid) && self.status_of(tid).status == DORMANT
    }

    pub open spec fn started(&self, tid: int) -> Map<int, ThreadStatus> {
        self.thread_map().insert(tid, ThreadStatus { status: READY, ..self.status_of(tid) })
    }

    pub open spec fn can_terminate(&self, tid: int) -> bool {
        self.has_thread(tid) && tid != self.current_id() && self.status_of(tid).status != DORMANT
    }

    pub open spec fn terminated(&self, tid: int) -> Map<int, ThreadStatus> {
        self.thread_map().insert(
            tid,
            ThreadStatus { status: DORMANT, wakeup_count: 0, ..self.status_of(tid) },
        )
    }

    pub open spec fn can_delete(&self, tid: int) -> bool {
        self.has_thread(tid) && tid != self.current_id() && self.status_of(tid).status == DORMANT
    }

    pub open spec fn with_priority(&self, tid: int, priority: int) -> Map<int, ThreadStatus> {
        self.thread_map().insert(
            tid,
            ThreadStatus { current_priority: priority as i32, ..self.status_of(tid) },
        )
    }

    pub open spec fn can_release(&self, tid: int) -> bool {
        self.has_thread(tid) && (self.status_of(tid).status == WAIT || self.status_of(tid).status
            == WAITSUSPEND)
    }

    pub open spec fn released(&self, tid: int) -> Map<int, ThreadStatus> {
        self.thread_map().insert(
            tid,
            ThreadStatus {
                status: if self.status_of(tid).status == WAIT {
                    READY
                } else {
                    SUSPEND
                },
                wait_type: 0,
                wait_id: 0,
                ..self.status_of(tid)
            },
        )
    }

    pub open spec fn can_wakeup(&self, tid: int) -> bool {
        &&& self.has_thread(tid)
        &&& tid != self.current_id()
        &&& self.status_of(tid).status != DORMANT
        &&& self.status_of(tid).wakeup_count < u32::MAX
    }

    pub open spec fn woken(&self, tid: int) -> Map<int, ThreadStatus> {
        self.thread_map().insert(
            tid,
            ThreadStatus { wakeup_count: (self.status_of(tid).wakeup_count + 1) as u32, ..self.status_of(tid) },
        )
    }

    pub open spec fn wakeups_cancelled(&self, tid: int) -> Map<int, ThreadStatus> {
        self.thread_map().insert(tid, ThreadStatus { wakeup_count: 0, ..self.status_of(tid) })
    }

    pub open spec fn can_suspend(&self, tid: int) -> bool {
        self.has_thread(tid) && tid != self.current_id() && (self.status_of(tid).status == READY
            || self.status_of(tid).status == WAIT)
    }

    pub open spec fn suspended(&self, tid: int) -> Map<int, ThreadStatus> {
        self.thread_map().insert(
            tid,
            ThreadStatus {
                status: if self.status_of(tid).status == READY {
                    SUSPEND
                } else {
                    WAITSUSPEND
                },
                ..self.status_of(tid)
            },
        )
    }

    pub open spec fn can_resume(&self, tid: int) -> bool {
        self.has_thread(tid) && (self.status_of(tid).status == SUSPEND || self.status_of(tid).status
            == WAITSUSPEND)
    }

    pub open spec fn resumed(&self, tid: int) -> Map<int, ThreadStatus> {
        self.thread_map().insert(
            tid,
            ThreadStatus {
                status: if self.status_of(tid).status == SUSPEND {
                    READY
                } else {
                    WAIT
                },
                ..self.status_of(tid)
            },
        )
    }

    /// The semaphore table with the count of `a` set to `ca` and that of `b` to `cb`.
    pub open spec fn with_counts(&self, a: int, ca: int, b: int, cb: int) -> Map<int, SemaParam> {
        self.with_count(a, ca).insert(b, SemaParam { count: cb as i32, ..self.sema_map()[b] })
    }

    /// The thread table, the running thread and the interrupt flag are those of `other`.
    pub open spec fn same_threads(&self, other: &Kernel) -> bool {
        &&& self.thread_map() == other.thread_map()
        &&& self.current_id() == other.current_id()
        &&& self.interrupts_enabled() == other.interrupts_enabled()
        &&& self.thread_slots_left() == other.thread_slots_left()
    }

    /// The semaphore table is that of `other`.
    pub open spec fn same_semas(&self, other: &Kernel) -> bool {
        &&& self.sema_map() == other.sema_map()
        &&& self.sema_slots_left() == other.sema_slots_left()
    }

    pub closed spec fn wf(&self) -> bool {
        &&& self.semas@.len() <= MAX_SEMAS
        &&& self.threads@.len() <= MAX_THREADS
        &&& 0 <= self.current < self.threads@.len()
        &&& self.threads@[self.current as int] is Some
        &&& forall|i: int|
            0 <= i < self.threads@.len() && #[trigger] self.threads@[i] is Some ==> valid_priority(
                self.threads@[i]->Some_0.current_priority as int,
            )
        &&& forall|i: int|
            0 <= i < self.semas@.len() && #[trigger] self.semas@[i] is Some ==> sema_ok(
                self.semas@[i]->Some_0,
            )
    }

    /// Every live semaphore has its count within `[0, max_count]`, and the
    /// running thread is a live thread.
    pub proof fn lemma_wf(&self)
        requires
            self.wf(),
        ensures
            forall|sid: int| #[trigger] self.has_sema(sid) ==> sema_ok(self.sema_map()[sid]),
            self.has_thread(self.current_id()),
            0 <= self.current_id() < MAX_THREADS,
            forall|sid: int| #[trigger] self.has_sema(sid) ==> 0 <= sid < MAX_SEMAS,
            forall|tid: int| #[trigger] self.has_thread(tid) ==> 0 <= tid < MAX_THREADS,
            forall|tid: int| #[trigger] self.has_thread(tid) ==> valid_priority(
                self.thread_map()[tid].current_priority as int,
            ),
            self.sema_slots_left() > 0 ==> self.sema_room(),
            self.thread_slots_left() > 0 ==> self.thread_room(),
    {
    }

    /// The number of live semaphores.
    pub open spec fn live_semas(&self) -> nat {
        self.sema_map().dom().len()
    }

    /// The live semaphores are finitely many, at most [`MAX_SEMAS`], and a new
    /// one finds a slot (never used, or freed) exactly when fewer than
    /// [`MAX_SEMAS`] are live.
    pub proof fn lemma_sema_room(&self)
        requires
            self.wf(),
        ensures
            self.sema_map().dom().finite(),
            self.live_semas() <= MAX_SEMAS,
            self.sema_room() <==> self.live_semas() < MAX_SEMAS,
    {
        let len = self.semas@.len() as int;
        let dom = self.sema_map().dom();
        lemma_int_range(0, len);
        assert(dom.subset_of(set_int_range(0, len)));
        lemma_len_subset(dom, set_int_range(0, len));
        if self.sema_room() && len >= MAX_SEMAS {
            let i = choose|i: int| 0 <= i < self.semas@.len() && #[trigger] self.semas@[i] is None;
            let smaller = set_int_range(0, len).remove(i);
            assert(dom.subset_of(smaller));
            lemma_len_subset(dom, smaller);
        }
        if !self.sema_room() {
            assert(dom =~= set_int_range(0, len));
        }
    }

    /// Whether a new thread finds a slot depends only on the live threads and
    /// the unused slots.
    pub proof fn lemma_thread_room_frame(&self, other: &Kernel)
        requires
            self.wf(),
            other.wf(),
            self.thread_map() == other.thread_map(),
            self.thread_slots_left() == other.thread_slots_left(),
        ensures
            self.thread_room() == other.thread_room(),
    {
        assert(self.threads@.len() == other.threads@.len());
        if self.thread_room() && self.threads@.len() >= MAX_THREADS {
            let i = choose|i: int| 0 <= i < self.threads@.len() && #[trigger] self.threads@[i] is None;
            assert(!self.thread_map().dom().contains(i));
            assert(other.threads@[i] is None);
        }
        if other.thread_room() && other.threads@.len() >= MAX_THREADS {
            let i = choose|i: int| 0 <= i < other.threads@.len() && #[trigger] other.threads@[i] is None;
            assert(!other.thread_map().dom().contains(i));
            assert(self.threads@[i] is None);
        }
    }

    /// A kernel with no semaphore and one thread, the running one, with
    /// interrupts enabled.
    pub fn new() -> (k: Kernel)
        ensures
            k.wf(),
            k.sema_map() == Map::<int, SemaParam>::empty(),
            k.thread_map() == Map::<int, ThreadStatus>::empty().insert(
                0,
                ThreadStatus {
                    status: RUN,
                    stack_size: 0,
                    initial_priority: BOOT_PRIORITY,
                    current_priority: BOOT_PRIORITY,
                    attr: 0,
                    option: 0,
                    wait_type: 0,
                    wait_id: 0,
                    wakeup_count: 0,
                },
            ),
            k.current_id() == 0,
            k.interrupts_enabled(),
            k.sema_slots_left() == MAX_SEMAS,
            k.thread_slots_left() == MAX_THREADS - 1,
    {
        let mut threads: Vec<Option<ThreadStatus>> = Vec::new();
        threads.push(
            Some(
                ThreadStatus {
                    status: RUN,
                    stack_size: 0,
                    initial_priority: BOOT_PRIORITY,
                    current_priority: BOOT_PRIORITY,
                    attr: 0,
                    option: 0,
                    wait_type: 0,
                    wait_id: 0,
                    wakeup_count: 0,
                },
            ),
        );
        let k = Kernel { semas: Vec::new(), threads, current: 0, interrupts: true };
        assert(k.sema_map() =~= Map::<int, SemaParam>::empty());
        assert(k.thread_map() =~= Map::<int, ThreadStatus>::empty().insert(0, k.threads@[0]->Some_0));
        k
    }

    fn free_sema_slot(&self) -> (r: Option<usize>)
        ensures
            r matches Some(i) ==> i < self.semas@.len() && self.semas@[i as int] is None,
            r is None ==> forall|i: int| 0 <= i < self.semas@.len() ==> self.semas@[i] is Some,
    {
        let mut i: usize = 0;
        while i < self.semas.len()
            invariant
                i <= self.semas@.len(),
                forall|j: int| 0 <= j < i ==> self.semas@[j] is Some,
            decreases self.semas@.len() - i,
        {
            if self.semas[i].is_none() {
                return Some(i);
            }
            i = i + 1;
        }
        None
    }

    /// Creates a semaphore from `p`; rejected when `p` is not valid or the table is full.
    pub fn create_sema(&mut self, p: SemaParam) -> (r: i32)
        requires
            old(self).wf(),
        ensures
            final(self).wf(),
            final(self).same_threads(old(self)),
            r >= 0 <==> valid_sema_param(p) && old(self).sema_room(),
            r < 0 ==> r == E_REJECTED && final(self).same_semas(old(self)),
            r >= 0 ==> {
                &&& !old(self).has_sema(r as int)
                &&& final(self).sema_map() == old(self).sema_map().insert(r as int, new_sema(p))
                &&& final(self).sema_slots_left() + 1 >= old(self).sema_slots_left()
            },
    {
        if p.init_count < 0 || p.max_count < 1 || p.init_count > p.max_count {
            proof {
                if self.semas@.len() >= MAX_SEMAS {
                }
            }
            return E_REJECTED;
        }
        let s = SemaParam {
            count: p.init_count,
            max_count: p.max_count,
            init_count: p.init_count,
            attr: p.attr,
            option: p.option,
        };
        match self.free_sema_slot() {
            Some(i) => {
                let ghost pre = self.sema_map();
                self.semas.set(i, Some(s));
                assert(self.sema_map() =~= pre.insert(i as int, new_sema(p)));
                i as i32
            },
            None => {
                if self.semas.len() < MAX_SEMAS {
                    let ghost pre = self.sema_map();
                    let i = self.semas.len();
                    self.semas.push(Some(s));
                    assert(self.sema_map() =~= pre.insert(i as int, new_sema(p)));
                    i as i32
                } else {
                    E_REJECTED
                }
            },
        }
    }

    fn sema_index(&self, sid: i32) -> (r: Option<usize>)
        ensures
            r is Some <==> self.has_sema(sid as int),
            r matches Some(i) ==> i == sid && i < self.semas@.len() && self.semas@[i as int]
                == Some(self.sema_map()[sid as int]),
    {
        if sid >= 0 && (sid as usize) < self.semas.len() && self.semas[sid as usize].is_some() {
            Some(sid as usize)
        } else {
            None
        }
    }

    /// Removes a live semaphore.
    pub fn delete_sema(&mut self, sid: i32) -> (r: i32)
        requires
            old(self).wf(),
        ensures
            final(self).wf(),
            final(self).same_threads(old(self)),
            final(self).sema_slots_left() == old(self).sema_slots_left(),
            r >= 0 <==> old(self).has_sema(sid as int),
            r < 0 ==> r == E_REJECTED && final(self).sema_map() == old(self).sema_map(),
            r >= 0 ==> r == sid && final(self).sema_map() == old(self).sema_map().remove(sid as int),
    {
        match self.sema_index(sid) {
            Some(i) => {
                let ghost pre = self.sema_map();
                self.semas.set(i, None);
                assert(self.sema_map() =~= pre.remove(sid as int));
                sid
            },
            None => E_REJECTED,
        }
    }

    /// Adds one to a live semaphore's count; rejected when the count is at its maximum.
    pub fn signal_sema(&mut self, sid: i32) -> (r: i32)
        requires
            old(self).wf(),
        ensures
            final(self).wf(),
            final(self).same_threads(old(self)),
            final(self).sema_slots_left() == old(self).sema_slots_left(),
            r >= 0 <==> old(self).has_sema(sid as int) && old(self).sema_count(sid as int)
                < old(self).sema_map()[sid as int].max_count,
            r < 0 ==> r == E_REJECTED && final(self).sema_map() == old(self).sema_map(),
            r >= 0 ==> r == sid && final(self).sema_map() == old(self).sema_map().insert(
                sid as int,
                SemaParam { count: (old(self).sema_count(sid as int) + 1) as i32, ..old(self).sema_map()[sid as int] },
            ),
    {
        match self.sema_index(sid) {
            Some(i) => {
                let s = self.semas[i].unwrap();
                if s.count < s.max_count {
                    let ghost pre = self.sema_map();
                    let t = SemaParam { count: s.count + 1, ..s };
                    self.semas.set(i, Some(t));
                    assert(self.sema_map() =~= pre.insert(sid as int, t));
                    sid
                } else {
                    E_REJECTED
                }
            },
            None => E_REJECTED,
        }
    }

    /// Takes one from a live semaphore's count if it is positive; rejected otherwise.
    pub fn poll_sema(&mut self, sid: i32) -> (r: i32)
        requires
            old(self).wf(),
        ensures
            final(self).wf(),
            final(self).same_threads(old(self)),
            final(self).sema_slots_left() == old(self).sema_slots_left(),
            r >= 0 <==> old(self).has_sema(sid as int) && old(self).sema_count(sid as int) > 0,
            r < 0 ==> r == E_REJECTED && final(self).sema_map() == old(self).sema_map(),
            r >= 0 ==> r == sid && final(self).sema_map() == old(self).sema_map().insert(
                sid as int,
                SemaParam { count: (old(self).sema_count(sid as int) - 1) as i32, ..old(self).sema_map()[sid as int] },
            ),
    {
        match self.sema_index(sid) {
            Some(i) => {
                let s = self.semas[i].unwrap();
                if s.count > 0 {
                    let ghost pre = self.sema_map();
                    let t = SemaParam { count: s.count - 1, ..s };
                    self.semas.set(i, Some(t));
                    assert(self.sema_map() =~= pre.insert(sid as int, t));
                    sid
                } else {
                    E_REJECTED
                }
            },
            None => E_REJECTED,
        }
    }

    /// Waits until a live semaphore's count is positive, then takes one from it.
    /// With no other thread to signal, a wait on a zero count would never return.
    pub fn wait_sema(&mut self, sid: i32) -> (r: i32)
        requires
            old(self).wf(),
            old(self).has_sema(sid as int) ==> old(self).sema_count(sid as int) > 0,
        ensures
            final(self).wf(),
            final(self).same_threads(old(self)),
            final(self).sema_slots_left() == old(self).sema_slots_left(),
            r >= 0 <==> old(self).has_sema(sid as int),
            r < 0 ==> r == E_REJECTED && final(self).sema_map() == old(self).sema_map(),
            r >= 0 ==> r == sid && final(self).sema_map() == old(self).sema_map().insert(
                sid as int,
                SemaParam { count: (old(self).sema_count(sid as int) - 1) as i32, ..old(self).sema_map()[sid as int] },
            ),
    {
        self.poll_sema(sid)
    }

    /// The parameters and count of a live semaphore.
    pub fn refer_sema_status(&self, sid: i32) -> (r: (i32, SemaParam))
        requires
            self.wf(),
        ensures
            r.0 >= 0 <==> self.has_sema(sid as int),
            r.0 < 0 ==> r.0 == E_REJECTED,
            r.0 >= 0 ==> r.0 == sid && r.1 == self.sema_map()[sid as int],
    {
        match self.sema_index(sid) {
            Some(i) => (sid, self.semas[i].unwrap()),
            None => (E_REJECTED, SemaParam { count: 0, max_count: 0, init_count: 0, attr: 0, option: 0 }),
        }
    }

    fn free_thread_slot(&self) -> (r: Option<usize>)
        ensures
            r matches Some(i) ==> i < self.threads@.len() && self.threads@[i as int] is None,
            r is None ==> forall|i: int| 0 <= i < self.threads@.len() ==> self.threads@[i] is Some,
    {
        let mut i: usize = 0;
        while i < self.threads.len()
            invariant
                i <= self.threads@.len(),
                forall|j: int| 0 <= j < i ==> self.threads@[j] is Some,
            decreases self.threads@.len() - i,
        {
            if self.threads[i].is_none() {
                return Some(i);
            }
            i = i + 1;
        }
        None
    }

    fn thread_index(&self, tid: i32) -> (r: Option<usize>)
        ensures
            r is Some <==> self.has_thread(tid as int),
            r matches Some(i) ==> i == tid && i < self.threads@.len() && self.threads@[i as int]
                == Some(self.thread_map()[tid as int]),
    {
        if tid >= 0 && (tid as usize) < self.threads.len() && self.threads[tid as usize].is_some() {
            Some(tid as usize)
        } else {
            None
        }
    }

    /// Replaces the entry of a live thread other than the running one.
    fn set_thread(&mut self, i: usize, t: ThreadStatus)
        requires
            old(self).wf(),
            i < old(self).threads@.len(),
            old(self).threads@[i as int] is Some,
            valid_priority(t.current_priority as int),
        ensures
            final(self).wf(),
            final(self).same_semas(old(self)),
            final(self).current_id() == old(self).current_id(),
            final(self).interrupts_enabled() == old(self).interrupts_enabled(),
            final(self).thread_slots_left() == old(self).thread_slots_left(),
            final(self).thread_map() == old(self).thread_map().insert(i as int, t),
    {
        let ghost pre = self.thread_map();
        self.threads.set(i, Some(t));
        assert(self.thread_map() =~= pre.insert(i as int, t));
    }

    /// Creates a dormant thread from `p`; rejected when `p` is not valid or the table is full.
    pub fn create_thread(&mut self, p: ThreadParam) -> (r: i32)
        requires
            old(self).wf(),
        ensures
            final(self).wf(),
            final(self).same_semas(old(self)),
            final(self).current_id() == old(self).current_id(),
            final(self).interrupts_enabled() == old(self).interrupts_enabled(),
            r >= 0 <==> valid_thread_param(p) && old(self).thread_room(),
            r < 0 ==> r == E_REJECTED && final(self).same_threads(old(self)),
            r >= 0 ==> {
                &&& !old(self).has_thread(r as int)
                &&& final(self).thread_map() == old(self).thread_map().insert(r as int, new_thread(p))
                &&& final(self).thread_slots_left() + 1 >= old(self).thread_slots_left()
            },
    {
        if p.stack_size <= 0 || p.initial_priority < 0 || p.initial_priority > KERNEL_MAX_PRIORITY {
            return E_REJECTED;
        }
        let t = ThreadStatus {
            status: DORMANT,
            stack_size: p.stack_size,
            initial_priority: p.initial_priority,
            current_priority: p.initial_priority,
            attr: p.attr,
            option: p.option,
            wait_type: 0,
            wait_id: 0,
            wakeup_count: 0,
        };
        match self.free_thread_slot() {
            Some(i) => {
                let ghost pre = self.thread_map();
                self.threads.set(i, Some(t));
                assert(self.thread_map() =~= pre.insert(i as int, new_thread(p)));
                i as i32
            },
            None => {
                if self.threads.len() < MAX_THREADS {
                    let ghost pre = self.thread_map();
                    let i = self.threads.len();
                    self.threads.push(Some(t));
                    assert(self.thread_map() =~= pre.insert(i as int, new_thread(p)));
                    i as i32
                } else {
                    E_REJECTED
                }
            },
        }
    }

    /// Makes a dormant thread ready to run.
    pub fn start_thread(&mut self, tid: i32) -> (r: i32)
        requires
            old(self).wf(),
        ensures
            final(self).wf(),
            final(self).same_semas(old(self)),
            final(self).current_id() == old(self).current_id(),
            final(self).interrupts_enabled() == old(self).interrupts_enabled(),
            final(self).thread_slots_left() == old(self).thread_slots_left(),
            r >= 0 <==> old(self).has_thread(tid as int) && old(self).thread_map()[tid as int].status
                == DORMANT,
            r < 0 ==> r == E_REJECTED && final(self).thread_map() == old(self).thread_map(),
            r >= 0 ==> r == tid && final(self).thread_map() == old(self).thread_map().insert(
                tid as int,
                ThreadStatus { status: READY, ..old(self).thread_map()[tid as int] },
            ),
    {
        match self.thread_index(tid) {
            Some(i) => {
                let t = self.threads[i].unwrap();
                if t.status == DORMANT {
                    self.set_thread(i, ThreadStatus { status: READY, ..t });
                    tid
                } else {
                    E_REJECTED
                }
            },
            None => E_REJECTED,
        }
    }

    /// Stops a thread other than the running one and leaves it dormant.
    pub fn terminate_thread(&mut self, tid: i32) -> (r: i32)
        requires
            old(self).wf(),
        ensures
            final(self).wf(),
            final(self).same_semas(old(self)),
            final(self).current_id() == old(self).current_id(),
            final(self).interrupts_enabled() == old(self).interrupts_enabled(),
            final(self).thread_slots_left() == old(self).thread_slots_left(),
            r >= 0 <==> old(self).has_thread(tid as int) && tid != old(self).current_id()
                && old(self).thread_map()[tid as int].status != DORMANT,
            r < 0 ==> r == E_REJECTED && final(self).thread_map() == old(self).thread_map(),
            r >= 0 ==> r == tid && final(self).thread_map() == old(self).thread_map().insert(
                tid as int,
                ThreadStatus {
                    status: DORMANT,
                    wakeup_count: 0,
                    ..old(self).thread_map()[tid as int]
                },
            ),
    {
        match self.thread_index(tid) {
            Some(i) => {
                let t = self.threads[i].unwrap();
                if tid != self.current && t.status != DORMANT {
                    self.set_thread(i, ThreadStatus { status: DORMANT, wakeup_count: 0, ..t });
                    tid
                } else {
                    E_REJECTED
                }
            },
            None => E_REJECTED,
        }
    }

    /// Removes a dormant thread.
    pub fn delete_thread(&mut self, tid: i32) -> (r: i32)
        requires
            old(self).wf(),
        ensures
            final(self).wf(),
            final(self).same_semas(old(self)),
            final(self).current_id() == old(self).current_id(),
            final(self).interrupts_enabled() == old(self).interrupts_enabled(),
            final(self).thread_slots_left() == old(self).thread_slots_left(),
            r >= 0 <==> old(self).has_thread(tid as int) && tid != old(self).current_id()
                && old(self).thread_map()[tid as int].status == DORMANT,
            r < 0 ==> r == E_REJECTED && final(self).thread_map() == old(self).thread_map(),
            r >= 0 ==> r == tid && final(self).thread_map() == old(self).thread_map().remove(tid as int),
    {
        match self.thread_index(tid) {
            Some(i) => {
                let t = self.threads[i].unwrap();
                if tid != self.current && t.status == DORMANT {
                    let ghost pre = self.thread_map();
                    self.threads.set(i, None);
                    assert(self.thread_map() =~= pre.remove(tid as int));
                    tid
                } else {
                    E_REJECTED
                }
            },
            None => E_REJECTED,
        }
    }

    /// A started thread `tid` has returned from its entry point: it ends and
    /// its entry is removed.
    pub fn exit_delete_thread(&mut self, tid: i32) -> (r: i32)
        requires
            old(self).wf(),
        ensures
            final(self).wf(),
            final(self).same_semas(old(self)),
            final(self).current_id() == old(self).current_id(),
            final(self).interrupts_enabled() == old(self).interrupts_enabled(),
            final(self).thread_slots_left() == old(self).thread_slots_left(),
            r >= 0 <==> old(self).has_thread(tid as int) && tid != old(self).current_id()
                && old(self).thread_map()[tid as int].status != DORMANT,
            r < 0 ==> r == E_REJECTED && final(self).thread_map() == old(self).thread_map(),
            r >= 0 ==> r == tid && final(self).thread_map() == old(self).thread_map().remove(tid as int),
    {
        match self.thread_index(tid) {
            Some(i) => {
                let t = self.threads[i].unwrap();
                if tid != self.current && t.status != DORMANT {
                    let ghost pre = self.thread_map();
                    self.threads.set(i, None);
                    assert(self.thread_map() =~= pre.remove(tid as int));
                    tid
                } else {
                    E_REJECTED
                }
            },
            None => E_REJECTED,
        }
    }

    /// Sets the current priority of a live thread.
    pub fn change_thread_priority(&mut self, tid: i32, priority: i32) -> (r: i32)
        requires
            old(self).wf(),
        ensures
            final(self).wf(),
            final(self).same_semas(old(self)),
            final(self).current_id() == old(self).current_id(),
            final(self).interrupts_enabled() == old(self).interrupts_enabled(),
            final(self).thread_slots_left() == old(self).thread_slots_left(),
            r >= 0 <==> old(self).has_thread(tid as int) && valid_priority(priority as int),
            r < 0 ==> r == E_REJECTED && final(self).thread_map() == old(self).thread_map(),
            r >= 0 ==> r == tid && final(self).thread_map() == old(self).thread_map().insert(
                tid as int,
                ThreadStatus { current_priority: priority, ..old(self).thread_map()[tid as int] },
            ),
    {
        match self.thread_index(tid) {
            Some(i) => {
                if 0 <= priority && priority <= KERNEL_MAX_PRIORITY {
                    let t = self.threads[i].unwrap();
                    self.set_thread(i, ThreadStatus { current_priority: priority, ..t });
                    tid
                } else {
                    E_REJECTED
                }
            },
            None => E_REJECTED,
        }
    }

    /// Moves the running thread of `priority` behind the other ready threads of
    /// that priority; in this kernel no state other than the order changes.
    pub fn rotate_thread_ready_queue(&mut self, priority: i32) -> (r: i32)
        requires
            old(self).wf(),
        ensures
            final(self).wf(),
            final(self).same_semas(old(self)),
            final(self).same_threads(old(self)),
            r >= 0 <==> valid_priority(priority as int),
            r < 0 ==> r == E_REJECTED,
    {
        if 0 <= priority && priority <= KERNEL_MAX_PRIORITY {
            priority
        } else {
            E_REJECTED
        }
    }

    /// Releases a thread that waits on a semaphore or in a sleep; it becomes ready.
    pub fn release_wait_thread(&mut self, tid: i32) -> (r: i32)
        requires
            old(self).wf(),
        ensures
            final(self).wf(),
            final(self).same_semas(old(self)),
            final(self).current_id() == old(self).current_id(),
            final(self).interrupts_enabled() == old(self).interrupts_enabled(),
            final(self).thread_slots_left() == old(self).thread_slots_left(),
            r >= 0 <==> old(self).has_thread(tid as int) && (old(self).thread_map()[tid as int].status
                == WAIT || old(self).thread_map()[tid as int].status == WAITSUSPEND),
            r < 0 ==> r == E_REJECTED && final(self).thread_map() == old(self).thread_map(),
            r >= 0 ==> r == tid && final(self).thread_map() == old(self).thread_map().insert(
                tid as int,
                ThreadStatus {
                    status: if old(self).thread_map()[tid as int].status == WAIT {
                        READY
                    } else {
                        SUSPEND
                    },
                    wait_type: 0,
                    wait_id: 0,
                    ..old(self).thread_map()[tid as int]
                },
            ),
    {
        match self.thread_index(tid) {
            Some(i) => {
                let t = self.threads[i].unwrap();
                if t.status == WAIT {
                    self.set_thread(i, ThreadStatus { status: READY, wait_type: 0, wait_id: 0, ..t });
                    tid
                } else if t.status == WAITSUSPEND {
                    self.set_thread(i, ThreadStatus { status: SUSPEND, wait_type: 0, wait_id: 0, ..t });
                    tid
                } else {
                    E_REJECTED
                }
            },
            None => E_REJECTED,
        }
    }

    /// The id of the running thread.
    pub fn get_thread_id(&self) -> (r: i32)
        ensures
            r == self.current_id(),
    {
        self.current
    }

    /// The status of a live thread.
    pub fn refer_thread_status(&self, tid: i32) -> (r: (i32, ThreadStatus))
        requires
            self.wf(),
        ensures
            r.0 >= 0 <==> self.has_thread(tid as int),
            r.0 < 0 ==> r.0 == E_REJECTED,
            r.0 >= 0 ==> r.0 == tid && r.1 == self.thread_map()[tid as int],
    {
        match self.thread_index(tid) {
            Some(i) => (tid, self.threads[i].unwrap()),
            None => (
                E_REJECTED,
                ThreadStatus {
                    status: 0,
                    stack_size: 0,
                    initial_priority: 0,
                    current_priority: 0,
                    attr: 0,
                    option: 0,
                    wait_type: 0,
                    wait_id: 0,
                    wakeup_count: 0,
                },
            ),
        }
    }

    /// Puts the running thread to sleep until it is woken up; a pending wakeup
    /// is used up at once. With no other thread to wake it, a sleep with no
    /// pending wakeup would never return.
    pub fn sleep_thread(&mut self) -> (r: i32)
        requires
            old(self).wf(),
            old(self).thread_map()[old(self).current_id()].wakeup_count > 0,
        ensures
            final(self).wf(),
            final(self).same_semas(old(self)),
            final(self).current_id() == old(self).current_id(),
            final(self).interrupts_enabled() == old(self).interrupts_enabled(),
            final(self).thread_slots_left() == old(self).thread_slots_left(),
            r == old(self).current_id(),
            final(self).thread_map() == old(self).thread_map().insert(
                old(self).current_id(),
                ThreadStatus {
                    wakeup_count: (old(self).thread_map()[old(self).current_id()].wakeup_count
                        - 1) as u32,
                    ..old(self).thread_map()[old(self).current_id()]
                },
            ),
    {
        let i = self.current as usize;
        let t = self.threads[i].unwrap();
        self.set_thread(i, ThreadStatus { wakeup_count: t.wakeup_count - 1, ..t });
        self.current
    }

    /// Wakes up a sleeping thread other than the running one, or, when it is
    /// not sleeping, counts a pending wakeup for it.
    pub fn wakeup_thread(&mut self, tid: i32) -> (r: i32)
        requires
            old(self).wf(),
        ensures
            final(self).wf(),
            final(self).same_semas(old(self)),
            final(self).current_id() == old(self).current_id(),
            final(self).interrupts_enabled() == old(self).interrupts_enabled(),
            final(self).thread_slots_left() == old(self).thread_slots_left(),
            r >= 0 <==> old(self).has_thread(tid as int) && tid != old(self).current_id()
                && old(self).thread_map()[tid as int].status != DORMANT
                && old(self).thread_map()[tid as int].wakeup_count < u32::MAX,
            r < 0 ==> r == E_REJECTED && final(self).thread_map() == old(self).thread_map(),
            r >= 0 ==> r == tid && final(self).thread_map() == old(self).thread_map().insert(
                tid as int,
                ThreadStatus {
                    wakeup_count: (old(self).thread_map()[tid as int].wakeup_count + 1) as u32,
                    ..old(self).thread_map()[tid as int]
                },
            ),
    {
        match self.thread_index(tid) {
            Some(i) => {
                let t = self.threads[i].unwrap();
                if tid != self.current && t.status != DORMANT && t.wakeup_count < u32::MAX {
                    self.set_thread(i, ThreadStatus { wakeup_count: t.wakeup_count + 1, ..t });
                    tid
                } else {
                    E_REJECTED
                }
            },
            None => E_REJECTED,
        }
    }

    /// Drops the pending wakeups of a live thread.
    pub fn cancel_wakeup_thread(&mut self, tid: i32) -> (r: i32)
        requires
            old(self).wf(),
        ensures
            final(self).wf(),
            final(self).same_semas(old(self)),
            final(self).current_id() == old(self).current_id(),
            final(self).interrupts_enabled() == old(self).interrupts_enabled(),
            final(self).thread_slots_left() == old(self).thread_slots_left(),
            r >= 0 <==> old(self).has_thread(tid as int),
            r < 0 ==> r == E_REJECTED && final(self).thread_map() == old(self).thread_map(),
            r >= 0 ==> r == tid && final(self).thread_map() == old(self).thread_map().insert(
                tid as int,
                ThreadStatus { wakeup_count: 0, ..old(self).thread_map()[tid as int] },
            ),
    {
        match self.thread_index(tid) {
            Some(i) => {
                let t = self.threads[i].unwrap();
                self.set_thread(i, ThreadStatus { wakeup_count: 0, ..t });
                tid
            },
            None => E_REJECTED,
        }
    }

    /// Suspends a ready or waiting thread other than the running one.
    pub fn suspend_thread(&mut self, tid: i32) -> (r: i32)
        requires
            old(self).wf(),
        ensures
            final(self).wf(),
            final(self).same_semas(old(self)),
            final(self).current_id() == old(self).current_id(),
            final(self).interrupts_enabled() == old(self).interrupts_enabled(),
            final(self).thread_slots_left() == old(self).thread_slots_left(),
            r >= 0 <==> old(self).has_thread(tid as int) && tid != old(self).current_id() && (
            old(self).thread_map()[tid as int].status == READY || old(self).thread_map()[tid as int].status
                == WAIT),
            r < 0 ==> r == E_REJECTED && final(self).thread_map() == old(self).thread_map(),
            r >= 0 ==> r == tid && final(self).thread_map() == old(self).thread_map().insert(
                tid as int,
                ThreadStatus {
                    status: if old(self).thread_map()[tid as int].status == READY {
                        SUSPEND
                    } else {
                        WAITSUSPEND
                    },
                    ..old(self).thread_map()[tid as int]
                },
            ),
    {
        match self.thread_index(tid) {
            Some(i) => {
                let t = self.threads[i].unwrap();
                if tid == self.current {
                    E_REJECTED
                } else if t.status == READY {
                    self.set_thread(i, ThreadStatus { status: SUSPEND, ..t });
                    tid
                } else if t.status == WAIT {
                    self.set_thread(i, ThreadStatus { status: WAITSUSPEND, ..t });
                    tid
                } else {
                    E_REJECTED
                }
            },
            None => E_REJECTED,
        }
    }

    /// Resumes a suspended thread.
    pub fn resume_thread(&mut self, tid: i32) -> (r: i32)
        requires
            old(self).wf(),
        ensures
            final(self).wf(),
            final(self).same_semas(old(self)),
            final(self).current_id() == old(self).current_id(),
            final(self).interrupts_enabled() == old(self).interrupts_enabled(),
            final(self).thread_slots_left() == old(self).thread_slots_left(),
            r >= 0 <==> old(self).has_thread(tid as int) && (old(self).thread_map()[tid as int].status
                == SUSPEND || old(self).thread_map()[tid as int].status == WAITSUSPEND),
            r < 0 ==> r == E_REJECTED && final(self).thread_map() == old(self).thread_map(),
            r >= 0 ==> r == tid && final(self).thread_map() == old(self).thread_map().insert(
                tid as int,
                ThreadStatus {
                    status: if old(self).thread_map()[tid as int].status == SUSPEND {
                        READY
                    } else {
                        WAIT
                    },
                    ..old(self).thread_map()[tid as int]
                },
            ),
    {
        match self.thread_index(tid) {
            Some(i) => {
                let t = self.threads[i].unwrap();
                if t.status == SUSPEND {
                    self.set_thread(i, ThreadStatus { status: READY, ..t });
                    tid
                } else if t.status == WAITSUSPEND {
                    self.set_thread(i, ThreadStatus { status: WAIT, ..t });
                    tid
                } else {
                    E_REJECTED
                }
            },
            None => E_REJECTED,
        }
    }

    pub fn are_interrupts_enabled(&self) -> (r: bool)
        ensures
            r == self.interrupts_enabled(),
    {
        self.interrupts
    }

    pub fn disable_interrupts(&mut self)
        requires
            old(self).wf(),
        ensures
            final(self).wf(),
            !final(self).interrupts_enabled(),
            final(self).same_semas(old(self)),
            final(self).thread_map() == old(self).thread_map(),
            final(self).current_id() == old(self).current_id(),
            final(self).thread_slots_left() == old(self).thread_slots_left(),
    {
        self.interrupts = false;
    }

    pub fn enable_interrupts(&mut self)
        requires
            old(self).wf(),
        ensures
            final(self).wf(),
            final(self).interrupts_enabled(),
            final(self).same_semas(old(self)),
            final(self).thread_map() == old(self).thread_map(),
            final(self).current_id() == old(self).current_id(),
            final(self).thread_slots_left() == old(self).thread_slots_left(),
    {
        self.interrupts = true;
    }
}

} // verus!
