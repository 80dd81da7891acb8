//! A mutex over a binary semaphore (count 1 when free, 0 when held).
//!
//! Locking moves the guarded value out into the guard; unlocking moves it
//! back and signals the semaphore. While a guard is out the mutex holds no
//! value, so the value is reachable only through the one guard.
use vstd::prelude::*;
use crate::kernel::Kernel;
use crate::os::SemaParam;
use crate::sema::Sema;

verus! {

/// The semaphore every mutex starts with: free, binary.
pub open spec fn free_binary_sema() -> SemaParam {
    SemaParam { count: 1, max_count: 1, init_count: 1, attr: 0, option: 0 }
}

/// A value behind a binary semaphore. There is no priority inheritance: a
/// low-priority holder delays a high-priority waiter. The semaphore is freed
/// by [`Mutex::into_inner`]; a mutex dropped without it leaves it live.
pub struct Mutex<T> {
    sema: Sema,
    data: Option<T>,
}

/// The right to the value of a locked [`Mutex`], taken in thread context.
///
/// Releasing the semaphore needs the kernel context, which a guard does not
/// hold, so a guard has no `Drop`: give it back with [`Mutex::unlock`], or use
/// [`Mutex::with_lock`], which releases on its one way out. A guard dropped
/// otherwise leaves the mutex held.
pub struct MutexGuard<T> {
    value: T,
    sid: i32,
}

/// The right to the value of a locked [`Mutex`], taken in interrupt context;
/// given back with [`Mutex::irq_unlock`], as a [`MutexGuard`] is.
pub struct IrqMutexGuard<T> {
    value: T,
    sid: i32,
}

impl<T> MutexGuard<T> {
    /// The id of the semaphore of the mutex this guard was taken from.
    pub closed spec fn sid(&self) -> int {
        self.sid as int
    }

    pub closed spec fn value(&self) -> T {
        self.value
    }

    pub fn get(&self) -> (r: &T)
        ensures
            *r == self.value(),
    {
        &self.value
    }

    pub fn get_mut(&mut self) -> (r: &mut T)
        ensures
            *r == old(self).value(),
            final(self).value() == *final(r),
            final(self).sid() == old(self).sid(),
    {
        &mut self.value
    }
}

impl<T> IrqMutexGuard<T> {
    pub closed spec fn sid(&self) -> int {
        self.sid as int
    }

    pub closed spec fn value(&self) -> T {
        self.value
    }

    pub fn get(&self) -> (r: &T)
        ensures
            *r == self.value(),
    {
        &self.value
    }

    pub fn get_mut(&mut self) -> (r: &mut T)
        ensures
            *r == old(self).value(),
            final(self).value() == *final(r),
            final(self).sid() == old(self).sid(),
    {
        &mut self.value
    }
}

impl<T> Mutex<T> {
    pub closed spec fn sid(&self) -> int {
        self.sema.sid()
    }

    /// A guard is out.
    pub closed spec fn is_locked(&self) -> bool {
        self.data is None
    }

    /// The guarded value, while no guard is out.
    pub closed spec fn value(&self) -> T {
        self.data->Some_0
    }

    /// The semaphore is live and binary, and its count is 1 exactly when no
    /// guard is out.
    pub open spec fn wf(&self, k: &Kernel) -> bool {
        &&& k.has_sema(self.sid())
        &&& k.sema_map()[self.sid()].max_count == 1
        &&& k.sema_count(self.sid()) == if self.is_locked() {
            0int
        } else {
            1int
        }
    }

    /// The count of the semaphore and the number of guards out add up to one.
    pub proof fn lemma_exclusion(&self, k: &Kernel)
        requires
            self.wf(k),
        ensures
            k.sema_count(self.sid()) + (if self.is_locked() {
                1int
            } else {
                0int
            }) == 1,
            k.can_take(self.sid()) <==> !self.is_locked(),
            k.can_signal(self.sid()) <==> self.is_locked(),
    {
    }

    /// A free mutex holding `val`; the kernel must have room for its semaphore.
    pub fn new(k: &mut Kernel, val: T) -> (r: Mutex<T>)
        requires
            old(k).wf(),
            old(k).sema_room(),
        ensures
            final(k).wf(),
            final(k).same_threads(old(k)),
            r.wf(final(k)),
            !r.is_locked(),
            r.value() == val,
            !old(k).has_sema(r.sid()),
            final(k).sema_map() == old(k).sema_map().insert(r.sid(), free_binary_sema()),
            final(k).sema_slots_left() + 1 >= old(k).sema_slots_left(),
    {
        let sema = match Sema::builder().init_count(1).max_count(1).build(k) {
            Ok(s) => s,
            Err(_) => {
                proof {
                    assert(false);
                }
                Sema::from_raw(0)
            },
        };
        Mutex { sema, data: Some(val) }
    }

    /// Deletes the semaphore and returns the value.
    pub fn into_inner(self, k: &mut Kernel) -> (r: T)
        requires
            old(k).wf(),
            self.wf(old(k)),
            !self.is_locked(),
        ensures
            final(k).wf(),
            final(k).same_threads(old(k)),
            final(k).sema_slots_left() == old(k).sema_slots_left(),
            final(k).sema_map() == old(k).sema_map().remove(self.sid()),
            r == self.value(),
    {
        let Mutex { sema, data } = self;
        sema.delete(k);
        data.unwrap()
    }

    /// Direct access to the value: holding `&mut self` already excludes every
    /// other user.
    pub fn get_mut(&mut self) -> (r: &mut T)
        requires
            !old(self).is_locked(),
        ensures
            *r == old(self).value(),
            final(self).value() == *final(r),
            !final(self).is_locked(),
            final(self).sid() == old(self).sid(),
    {
        self.data.as_mut().unwrap()
    }

    /// Waits on the semaphore and hands out the value in a guard. The mutex
    /// must be free: with no other thread left to unlock it, the wait would
    /// never return.
    pub fn lock(&mut self, k: &mut Kernel) -> (g: MutexGuard<T>)
        requires
            old(k).wf(),
            old(self).wf(old(k)),
            !old(self).is_locked(),
        ensures
            final(k).wf(),
            final(k).same_threads(old(k)),
            final(k).sema_slots_left() == old(k).sema_slots_left(),
            final(k).sema_map() == old(k).with_count(old(self).sid(), 0),
            final(self).wf(final(k)),
            final(self).is_locked(),
            final(self).sid() == old(self).sid(),
            g.sid() == old(self).sid(),
            g.value() == old(self).value(),
    {
        self.sema.wait(k);
        let value = self.data.take().unwrap();
        MutexGuard { value, sid: self.sema.id() }
    }

    /// Polls the semaphore: a guard when the mutex is free, `None` when a
    /// guard is already out.
    pub fn try_lock(&mut self, k: &mut Kernel) -> (r: Option<MutexGuard<T>>)
        requires
            old(k).wf(),
            old(self).wf(old(k)),
        ensures
            final(k).wf(),
            final(k).same_threads(old(k)),
            final(k).sema_slots_left() == old(k).sema_slots_left(),
            final(self).wf(final(k)),
            final(self).sid() == old(self).sid(),
            r is Some <==> !old(self).is_locked(),
            r is None ==> *final(self) == *old(self) && final(k).sema_map() == old(k).sema_map(),
            r matches Some(g) ==> g.sid() == old(self).sid() && g.value() == old(self).value(),
            r is Some ==> final(self).is_locked(),
            r is Some ==> final(k).sema_map() == old(k).with_count(old(self).sid(), 0),
    {
        if self.sema.poll(k) {
            let value = self.data.take().unwrap();
            Some(MutexGuard { value, sid: self.sema.id() })
        } else {
            None
        }
    }

    /// As [`Mutex::try_lock`], from interrupt context; there is no blocking form.
    pub fn irq_try_lock(&mut self, k: &mut Kernel) -> (r: Option<IrqMutexGuard<T>>)
        requires
            old(k).wf(),
            old(self).wf(old(k)),
        ensures
            final(k).wf(),
            final(k).same_threads(old(k)),
            final(k).sema_slots_left() == old(k).sema_slots_left(),
            final(self).wf(final(k)),
            final(self).sid() == old(self).sid(),
            r is Some <==> !old(self).is_locked(),
            r is None ==> *final(self) == *old(self) && final(k).sema_map() == old(k).sema_map(),
            r matches Some(g) ==> g.sid() == old(self).sid() && g.value() == old(self).value(),
            r is Some ==> final(self).is_locked(),
            r is Some ==> final(k).sema_map() == old(k).with_count(old(self).sid(), 0),
    {
        if self.sema.irq_poll(k) {
            let value = self.data.take().unwrap();
            Some(IrqMutexGuard { value, sid: self.sema.id() })
        } else {
            None
        }
    }

    /// Puts the guard's value back and signals the semaphore.
    pub fn unlock(&mut self, k: &mut Kernel, guard: MutexGuard<T>)
        requires
            old(k).wf(),
            old(self).wf(old(k)),
            old(self).is_locked(),
            guard.sid() == old(self).sid(),
        ensures
            final(k).wf(),
            final(k).same_threads(old(k)),
            final(k).sema_slots_left() == old(k).sema_slots_left(),
            final(k).sema_map() == old(k).with_count(old(self).sid(), 1),
            final(self).wf(final(k)),
            !final(self).is_locked(),
            final(self).sid() == old(self).sid(),
            final(self).value() == guard.value(),
    {
        let MutexGuard { value, sid: _ } = guard;
        self.data = Some(value);
        self.sema.signal(k);
    }

    /// A critical section: locks, hands the value to `g`, keeps the value `g`
    /// gives back, and unlocks. The semaphore is taken once and released once,
    /// whatever `g` does, and the mutex is free again on return.
    pub fn with_lock<R, G: FnOnce(T) -> (T, R)>(&mut self, k: &mut Kernel, g: G) -> (r: R)
        requires
            old(k).wf(),
            old(self).wf(old(k)),
            !old(self).is_locked(),
            g.requires((old(self).value(),)),
        ensures
            final(k).wf(),
            final(k).same_threads(old(k)),
            final(k).same_semas(old(k)),
            final(self).wf(final(k)),
            !final(self).is_locked(),
            final(self).sid() == old(self).sid(),
            g.ensures((old(self).value(),), (final(self).value(), r)),
    {
        let guard = self.lock(k);
        let MutexGuard { value, sid } = guard;
        let (value, r) = g(value);
        self.unlock(k, MutexGuard { value, sid });
        proof {
            assert(k.sema_map() =~= old(k).sema_map());
        }
        r
    }

    /// As [`Mutex::unlock`], for a guard taken in interrupt context.
    pub fn irq_unlock(&mut self, k: &mut Kernel, guard: IrqMutexGuard<T>)
        requires
            old(k).wf(),
            old(self).wf(old(k)),
            old(self).is_locked(),
            guard.sid() == old(self).sid(),
        ensures
            final(k).wf(),
            final(k).same_threads(old(k)),
            final(k).sema_slots_left() == old(k).sema_slots_left(),
            final(k).sema_map() == old(k).with_count(old(self).sid(), 1),
            final(self).wf(final(k)),
            !final(self).is_locked(),
            final(self).sid() == old(self).sid(),
            final(self).value() == guard.value(),
    {
        let IrqMutexGuard { value, sid: _ } = guard;
        self.data = Some(value);
        self.sema.irq_signal(k);
    }
}

/// One critical section on a counter: `lock`, add one through the guard,
/// `unlock`. By the contracts of `lock` and `unlock`, the mutex goes from `a`
/// to `b` with the same semaphore, free before and after, one higher.
pub open spec fn increment_step(a: Mutex<u64>, b: Mutex<u64>) -> bool {
    &&& !a.is_locked()
    &&& !b.is_locked()
    &&& b.sid() == a.sid()
    &&& b.value() == a.value() + 1
}

fn add_one(v: u64) -> (r: (u64, ()))
    requires
        v < u64::MAX,
    ensures
        r.0 == v + 1,
{
    (v + 1, ())
}

/// One guarded increment of a counter, through [`Mutex::with_lock`]: an
/// [`increment_step`] from the mutex before to the mutex after.
pub fn guarded_increment(m: &mut Mutex<u64>, k: &mut Kernel)
    requires
        old(k).wf(),
        old(m).wf(old(k)),
        !old(m).is_locked(),
        old(m).value() < u64::MAX,
    ensures
        final(k).wf(),
        final(k).same_threads(old(k)),
        final(k).same_semas(old(k)),
        final(m).wf(final(k)),
        increment_step(*old(m), *final(m)),
{
    m.with_lock(k, add_one)
}

/// Mutual exclusion on a counter: whatever the order in which `threads`
/// threads take turns, a run of `threads * n` guarded increments, each by
/// one critical section, leaves the counter `threads * n` above its start.
pub proof fn lemma_guarded_increments(states: Seq<Mutex<u64>>, threads: nat, n: nat)
    requires
        threads >= 1,
        n >= 1,
        states.len() == threads * n + 1,
        forall|i: int| 0 <= i < states.len() - 1 ==> increment_step(#[trigger] states[i], states[i + 1]),
    ensures
        states.last().value() == states[0].value() + threads * n,
        !states.last().is_locked(),
        states.last().sid() == states[0].sid(),
{
    assert(threads * n >= 1) by (nonlinear_arith)
        requires
            threads >= 1,
            n >= 1,
    ;
    lemma_increment_prefix(states, (threads * n) as int);
}

proof fn lemma_increment_prefix(states: Seq<Mutex<u64>>, j: int)
    requires
        0 < j < states.len(),
        forall|i: int| 0 <= i < states.len() - 1 ==> increment_step(#[trigger] states[i], states[i + 1]),
    ensures
        states[j].value() == states[0].value() + j,
        states[j].sid() == states[0].sid(),
        !states[j].is_locked(),
    decreases j,
{
    if j > 1 {
        lemma_increment_prefix(states, j - 1);
    }
    assert(increment_step(states[j - 1], states[j]));
}

} // verus!
