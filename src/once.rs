//! Run-once initialization: a completion flag and a mutex, with the flag
//! checked again under the mutex (double-checked locking).
use vstd::prelude::*;
use crate::kernel::Kernel;
use crate::mutex::Mutex;

verus! {

/// Calls `f`; the function handed to [`Once::call_once_with`] by [`Once::call_once`].
fn run_unit<F: FnOnce()>(f: F)
    requires
        f.requires(()),
    ensures
        f.ensures((), ()),
{
    f()
}

/// Pending until an initializer has run, then completed for good. Its mutex's
/// semaphore is freed by [`Once::delete`]; a `Once` dropped without it leaves
/// the semaphore live.
pub struct Once {
    flag: bool,
    mutex: Mutex<()>,
    runs: Ghost<nat>,
}

impl Once {
    pub closed spec fn completed(&self) -> bool {
        self.flag
    }

    /// How many times an initializer has run on this `Once`.
    pub closed spec fn runs(&self) -> nat {
        self.runs@
    }

    pub closed spec fn mutex(&self) -> Mutex<()> {
        self.mutex
    }

    /// The mutex is free, and an initializer has run once exactly when
    /// the flag is set.
    pub open spec fn wf(&self, k: &Kernel) -> bool {
        &&& self.mutex().wf(k)
        &&& !self.mutex().is_locked()
        &&& self.runs() == if self.completed() {
            1nat
        } else {
            0nat
        }
    }

    /// A pending `Once`; the kernel must have room for its mutex's semaphore.
    pub fn new(k: &mut Kernel) -> (r: Once)
        requires
            old(k).wf(),
            old(k).sema_room(),
        ensures
            final(k).wf(),
            final(k).same_threads(old(k)),
            r.wf(final(k)),
            !r.completed(),
            !old(k).has_sema(r.mutex().sid()),
            final(k).sema_map() == old(k).sema_map().insert(
                r.mutex().sid(),
                crate::mutex::free_binary_sema(),
            ),
            final(k).sema_slots_left() + 1 >= old(k).sema_slots_left(),
    {
        Once { flag: false, mutex: Mutex::new(k, ()), runs: Ghost(0) }
    }

    pub fn is_completed(&self) -> (r: bool)
        ensures
            r == self.completed(),
    {
        self.flag
    }

    /// Runs `g(arg)` if no initializer has completed yet, and returns its
    /// result; otherwise hands `arg` back unused. Either way the `Once` is
    /// completed afterwards and an initializer has run exactly once.
    pub fn call_once_with<A, R, G: FnOnce(A) -> R>(&mut self, k: &mut Kernel, arg: A, g: G) -> (r:
        Result<R, A>)
        requires
            old(k).wf(),
            old(self).wf(old(k)),
            !old(self).completed() ==> g.requires((arg,)),
        ensures
            final(k).wf(),
            final(k).same_threads(old(k)),
            final(k).same_semas(old(k)),
            final(self).wf(final(k)),
            final(self).mutex().sid() == old(self).mutex().sid(),
            final(self).completed(),
            final(self).runs() == 1,
            old(self).completed() ==> r == Err::<R, A>(arg),
            !old(self).completed() ==> r is Ok,
            r matches Ok(v) ==> g.ensures((arg,), v),
    {
        if self.is_completed() {
            return Err(arg);
        }
        self.call_once_inner(k, arg, g)
    }

    fn call_once_inner<A, R, G: FnOnce(A) -> R>(&mut self, k: &mut Kernel, arg: A, g: G) -> (r:
        Result<R, A>)
        requires
            old(k).wf(),
            old(self).wf(old(k)),
            !old(self).completed() ==> g.requires((arg,)),
        ensures
            final(k).wf(),
            final(k).same_threads(old(k)),
            final(k).same_semas(old(k)),
            final(self).wf(final(k)),
            final(self).mutex().sid() == old(self).mutex().sid(),
            final(self).completed(),
            final(self).runs() == 1,
            old(self).completed() ==> r == Err::<R, A>(arg),
            !old(self).completed() ==> r is Ok,
            r matches Ok(v) ==> g.ensures((arg,), v),
    {
        let guard = self.mutex.lock(k);
        let r = if !self.flag {
            let v = g(arg);
            self.flag = true;
            self.runs = Ghost(self.runs@ + 1);
            Ok(v)
        } else {
            Err(arg)
        };
        self.mutex.unlock(k, guard);
        proof {
            assert(k.sema_map() =~= old(k).sema_map());
        }
        r
    }

    /// Runs `f` if no initializer has completed yet.
    pub fn call_once<F: FnOnce()>(&mut self, k: &mut Kernel, f: F)
        requires
            old(k).wf(),
            old(self).wf(old(k)),
            !old(self).completed() ==> f.requires(()),
        ensures
            final(k).wf(),
            final(k).same_threads(old(k)),
            final(k).same_semas(old(k)),
            final(self).wf(final(k)),
            final(self).mutex().sid() == old(self).mutex().sid(),
            final(self).completed(),
            final(self).runs() == 1,
            old(self).completed() ==> final(self).runs() == old(self).runs(),
            !old(self).completed() ==> f.ensures((), ()),
            call_once_step(*old(self), *final(self)),
    {
        let _ = self.call_once_with(k, f, run_unit::<F>);
    }

    /// Deletes its mutex's semaphore.
    pub fn delete(self, k: &mut Kernel)
        requires
            old(k).wf(),
            self.wf(old(k)),
        ensures
            final(k).wf(),
            final(k).same_threads(old(k)),
            final(k).sema_slots_left() == old(k).sema_slots_left(),
            final(k).sema_map() == old(k).sema_map().remove(self.mutex().sid()),
    {
        self.mutex.into_inner(k);
    }
}

/// What one `call_once` does, by its contract: the `Once` ends completed
/// with one run, on the same mutex, and a completed `Once` runs nothing more.
pub open spec fn call_once_step(a: Once, b: Once) -> bool {
    &&& b.completed()
    &&& b.runs() == 1
    &&& b.mutex().sid() == a.mutex().sid()
    &&& (a.completed() ==> b.runs() == a.runs())
}

/// However many callers reach a fresh `Once`, each call ordered by its mutex,
/// the initializer has run exactly once once they have all returned.
pub proof fn lemma_once_for_all_callers(states: Seq<Once>, callers: nat)
    requires
        callers >= 1,
        states.len() == callers + 1,
        !states[0].completed(),
        states[0].runs() == 0,
        forall|i: int| 0 <= i < callers ==> call_once_step(#[trigger] states[i], states[i + 1]),
    ensures
        states.last().completed(),
        states.last().runs() == 1,
        states.last().mutex().sid() == states[0].mutex().sid(),
{
    lemma_once_prefix(states, callers as int);
}

proof fn lemma_once_prefix(states: Seq<Once>, j: int)
    requires
        0 < j < states.len(),
        forall|i: int| 0 <= i < states.len() - 1 ==> call_once_step(#[trigger] states[i], states[i + 1]),
    ensures
        states[j].completed(),
        states[j].runs() == 1,
        states[j].mutex().sid() == states[0].mutex().sid(),
    decreases j,
{
    if j > 1 {
        lemma_once_prefix(states, j - 1);
    }
    assert(call_once_step(states[j - 1], states[j]));
}

} // verus!
