//! Multi-producer, multi-consumer FIFO queues: a deque touched only inside a
//! critical section, and semaphores that count the queued items (and, for the
//! bounded queue, the free places).
//!
//! Each queue keeps, as ghost state, the sequence of every value pushed and of
//! every value popped; the queued items are always what was pushed and not yet
//! popped, in order.
use vstd::prelude::*;
use vstd::seq_lib::lemma_multiset_commutative;
use std::collections::VecDeque;
use crate::kernel::Kernel;
use crate::os::SemaParam;
use crate::sema::{Sema, COUNT_LIMIT};

verus! {

/// Relies on critical_section::with: it runs the closure it is given once,
/// inside a critical section, and returns what the closure returns.
#[verifier::external_body]
fn critical<A, R, G: FnOnce(A) -> R>(arg: A, g: G) -> (r: R)
    requires
        g.requires((arg,)),
    ensures
        g.ensures((arg,), r),
{
    critical_section::with(|_cs| g(arg))
}

fn push_back_item<T>(qv: (VecDeque<T>, T)) -> (r: VecDeque<T>)
    ensures
        r@ == qv.0@.push(qv.1),
{
    let (mut q, v) = qv;
    q.push_back(v);
    q
}

fn pop_front_item<T>(q: VecDeque<T>) -> (r: (VecDeque<T>, Option<T>))
    ensures
        q@.len() == 0 ==> r.1 is None && r.0@ == q@,
        q@.len() > 0 ==> r.1 == Some(q@[0]) && r.0@ == q@.drop_first(),
{
    let mut q = q;
    let v = q.pop_front();
    (q, v)
}

/// A deque that is only read or written inside a critical section.
struct SyncDequeue<T> {
    inner: VecDeque<T>,
}

impl<T> SyncDequeue<T> {
    closed spec fn items(&self) -> Seq<T> {
        self.inner@
    }

    fn new() -> (r: SyncDequeue<T>)
        ensures
            r.items() == Seq::<T>::empty(),
    {
        SyncDequeue { inner: VecDeque::new() }
    }

    fn with_capacity(cap: usize) -> (r: SyncDequeue<T>)
        ensures
            r.items() == Seq::<T>::empty(),
    {
        SyncDequeue { inner: VecDeque::with_capacity(cap) }
    }

    fn push(&mut self, val: T)
        ensures
            final(self).items() == old(self).items().push(val),
    {
        let mut q = VecDeque::new();
        core::mem::swap(&mut q, &mut self.inner);
        self.inner = critical((q, val), push_back_item::<T>);
    }

    fn pop(&mut self) -> (r: Option<T>)
        ensures
            old(self).items().len() == 0 ==> r is None && final(self).items() == old(self).items(),
            old(self).items().len() > 0 ==> r == Some(old(self).items()[0]) && final(self).items()
                == old(self).items().drop_first(),
    {
        let mut q = VecDeque::new();
        core::mem::swap(&mut q, &mut self.inner);
        let (q, v) = critical(q, pop_front_item::<T>);
        self.inner = q;
        v
    }
}

/// The semaphore that counts the items of a new queue: none yet, up to `max`.
pub open spec fn empty_count(max: int) -> SemaParam {
    SemaParam { count: 0, max_count: max as i32, init_count: 0, attr: 0, option: 0 }
}

/// The semaphore that counts the free places of a new bounded queue.
pub open spec fn full_count(max: int) -> SemaParam {
    SemaParam { count: max as i32, max_count: max as i32, init_count: max as i32, attr: 0, option: 0 }
}

/// A FIFO queue of any length; consumers wait on the item count. Its
/// semaphore is freed by [`UnboundedQueue::delete`]; a queue dropped without
/// it leaves the semaphore live.
pub struct UnboundedQueue<T> {
    inner: SyncDequeue<T>,
    csema: Sema,
    pushed: Ghost<Seq<T>>,
    popped: Ghost<Seq<T>>,
}

impl<T> UnboundedQueue<T> {
    /// The queued values, oldest first.
    pub closed spec fn items(&self) -> Seq<T> {
        self.inner.items()
    }

    /// Every value pushed so far, in order.
    pub closed spec fn pushed(&self) -> Seq<T> {
        self.pushed@
    }

    /// Every value popped so far, in order.
    pub closed spec fn popped(&self) -> Seq<T> {
        self.popped@
    }

    /// The id of the semaphore that counts the items.
    pub closed spec fn items_sid(&self) -> int {
        self.csema.sid()
    }

    /// The item semaphore is live and its count is the number of queued
    /// items; the popped values followed by the queued ones are the pushed ones.
    pub open spec fn wf(&self, k: &Kernel) -> bool {
        &&& k.has_sema(self.items_sid())
        &&& k.sema_map()[self.items_sid()].max_count == COUNT_LIMIT
        &&& k.sema_count(self.items_sid()) == self.items().len()
        &&& self.popped() + self.items() == self.pushed()
    }

    /// Every value pushed is popped exactly once, in the order pushed: once
    /// the queue is drained, the popped values are the pushed ones.
    pub proof fn lemma_conservation(&self, k: &Kernel)
        requires
            self.wf(k),
            self.items().len() == 0,
        ensures
            self.popped() == self.pushed(),
    {
        assert(self.popped() + self.items() =~= self.popped());
    }

    /// Under any interleaving of producers and consumers, at every instant the
    /// values popped and the values queued are, together, exactly the values
    /// pushed: none lost, none duplicated.
    pub proof fn lemma_popped_and_queued(&self, k: &Kernel)
        requires
            self.wf(k),
        ensures
            self.popped().to_multiset().add(self.items().to_multiset()) == self.pushed().to_multiset(),
    {
        lemma_multiset_commutative(self.popped(), self.items());
    }

    /// Deletes the item semaphore; the queued values are dropped.
    pub fn delete(self, k: &mut Kernel)
        requires
            old(k).wf(),
            self.wf(old(k)),
        ensures
            final(k).wf(),
            final(k).same_threads(old(k)),
            final(k).sema_slots_left() == old(k).sema_slots_left(),
            final(k).sema_map() == old(k).sema_map().remove(self.items_sid()),
    {
        let UnboundedQueue { inner: _, csema, pushed: _, popped: _ } = self;
        csema.delete(k);
    }

    /// An empty queue; the kernel must have room for its semaphore.
    pub fn new(k: &mut Kernel) -> (r: UnboundedQueue<T>)
        requires
            old(k).wf(),
            old(k).sema_room(),
        ensures
            final(k).wf(),
            final(k).same_threads(old(k)),
            r.wf(final(k)),
            r.items() == Seq::<T>::empty(),
            r.pushed() == Seq::<T>::empty(),
            !old(k).has_sema(r.items_sid()),
            final(k).sema_map() == old(k).sema_map().insert(r.items_sid(), empty_count(COUNT_LIMIT as int)),
            final(k).sema_slots_left() + 1 >= old(k).sema_slots_left(),
    {
        let csema = match Sema::builder().init_count(0).max_count(COUNT_LIMIT).build(k) {
            Ok(s) => s,
            Err(_) => {
                proof {
                    assert(false);
                }
                Sema::from_raw(0)
            },
        };
        UnboundedQueue {
            inner: SyncDequeue::new(),
            csema,
            pushed: Ghost(Seq::empty()),
            popped: Ghost(Seq::empty()),
        }
    }

    /// Appends `val`, then signals the item semaphore. The count may not pass
    /// [`COUNT_LIMIT`].
    pub fn push(&mut self, k: &mut Kernel, val: T)
        requires
            old(k).wf(),
            old(self).wf(old(k)),
            old(self).items().len() < COUNT_LIMIT,
        ensures
            final(k).wf(),
            final(k).same_threads(old(k)),
            final(k).sema_slots_left() == old(k).sema_slots_left(),
            final(k).sema_map() == old(k).with_count(old(self).items_sid(), old(self).items().len() + 1int),
            final(self).wf(final(k)),
            final(self).items_sid() == old(self).items_sid(),
            final(self).items() == old(self).items().push(val),
            final(self).pushed() == old(self).pushed().push(val),
            final(self).popped() == old(self).popped(),
    {
        self.inner.push(val);
        self.pushed = Ghost(self.pushed@.push(val));
        proof {
            assert(self.popped@ + self.inner.items() =~= self.pushed@);
        }
        self.csema.signal(k);
    }

    /// As [`UnboundedQueue::push`], from interrupt context.
    pub fn irq_push(&mut self, k: &mut Kernel, val: T)
        requires
            old(k).wf(),
            old(self).wf(old(k)),
            old(self).items().len() < COUNT_LIMIT,
        ensures
            final(k).wf(),
            final(k).same_threads(old(k)),
            final(k).sema_slots_left() == old(k).sema_slots_left(),
            final(k).sema_map() == old(k).with_count(old(self).items_sid(), old(self).items().len() + 1int),
            final(self).wf(final(k)),
            final(self).items_sid() == old(self).items_sid(),
            final(self).items() == old(self).items().push(val),
            final(self).pushed() == old(self).pushed().push(val),
            final(self).popped() == old(self).popped(),
    {
        self.inner.push(val);
        self.pushed = Ghost(self.pushed@.push(val));
        proof {
            assert(self.popped@ + self.inner.items() =~= self.pushed@);
        }
        self.csema.irq_signal(k);
    }

    /// Takes the oldest item after a successful poll or wait.
    fn take_front(&mut self) -> (r: T)
        requires
            old(self).items().len() > 0,
            old(self).popped() + old(self).items() == old(self).pushed(),
        ensures
            r == old(self).items()[0],
            final(self).items() == old(self).items().drop_first(),
            final(self).popped() == old(self).popped().push(r),
            final(self).pushed() == old(self).pushed(),
            final(self).popped() + final(self).items() == final(self).pushed(),
            final(self).csema == old(self).csema,
    {
        let v = match self.inner.pop() {
            Some(v) => v,
            None => unreached(),
        };
        self.popped = Ghost(self.popped@.push(v));
        proof {
            assert(self.popped@ + self.inner.items() =~= old(self).popped@ + old(self).inner.items());
        }
        v
    }

    /// Waits on the item semaphore, then takes the oldest item. The queue must
    /// not be empty: with no other thread left to push, the wait would never
    /// return.
    pub fn pop(&mut self, k: &mut Kernel) -> (r: T)
        requires
            old(k).wf(),
            old(self).wf(old(k)),
            old(self).items().len() > 0,
        ensures
            final(k).wf(),
            final(k).same_threads(old(k)),
            final(k).sema_slots_left() == old(k).sema_slots_left(),
            final(k).sema_map() == old(k).with_count(old(self).items_sid(), old(self).items().len() - 1int),
            final(self).wf(final(k)),
            final(self).items_sid() == old(self).items_sid(),
            r == old(self).items()[0],
            final(self).items() == old(self).items().drop_first(),
            final(self).popped() == old(self).popped().push(r),
            final(self).pushed() == old(self).pushed(),
    {
        self.csema.wait(k);
        self.take_front()
    }

    /// The oldest item, or `None` when the queue is empty.
    pub fn try_pop(&mut self, k: &mut Kernel) -> (r: Option<T>)
        requires
            old(k).wf(),
            old(self).wf(old(k)),
        ensures
            final(k).wf(),
            final(k).same_threads(old(k)),
            final(k).sema_slots_left() == old(k).sema_slots_left(),
            final(self).wf(final(k)),
            final(self).items_sid() == old(self).items_sid(),
            final(self).pushed() == old(self).pushed(),
            r is Some <==> old(self).items().len() > 0,
            r is None ==> final(self).items() == old(self).items() && final(self).popped()
                == old(self).popped() && final(k).sema_map() == old(k).sema_map(),
            r matches Some(v) ==> v == old(self).items()[0] && final(self).items()
                == old(self).items().drop_first() && final(self).popped() == old(self).popped().push(v),
            r is Some ==> final(k).sema_map() == old(k).with_count(old(self).items_sid(), old(self).items().len() - 1int),
    {
        if self.csema.poll(k) {
            Some(self.take_front())
        } else {
            None
        }
    }

    /// As [`UnboundedQueue::try_pop`], from interrupt context.
    pub fn irq_try_pop(&mut self, k: &mut Kernel) -> (r: Option<T>)
        requires
            old(k).wf(),
            old(self).wf(old(k)),
        ensures
            final(k).wf(),
            final(k).same_threads(old(k)),
            final(k).sema_slots_left() == old(k).sema_slots_left(),
            final(self).wf(final(k)),
            final(self).items_sid() == old(self).items_sid(),
            final(self).pushed() == old(self).pushed(),
            r is Some <==> old(self).items().len() > 0,
            r is None ==> final(self).items() == old(self).items() && final(self).popped()
                == old(self).popped() && final(k).sema_map() == old(k).sema_map(),
            r matches Some(v) ==> v == old(self).items()[0] && final(self).items()
                == old(self).items().drop_first() && final(self).popped() == old(self).popped().push(v),
            r is Some ==> final(k).sema_map() == old(k).with_count(old(self).items_sid(), old(self).items().len() - 1int),
    {
        if self.csema.irq_poll(k) {
            Some(self.take_front())
        } else {
            None
        }
    }
}

/// A FIFO queue of fixed capacity; producers wait on the free places and
/// consumers on the items. Its semaphores are freed by
/// [`BoundedQueue::delete`]; a queue dropped without it leaves them live.
pub struct BoundedQueue<T> {
    inner: SyncDequeue<T>,
    csema: Sema,
    psema: Sema,
    pushed: Ghost<Seq<T>>,
    popped: Ghost<Seq<T>>,
}

impl<T> BoundedQueue<T> {
    /// The queued values, oldest first.
    pub closed spec fn items(&self) -> Seq<T> {
        self.inner.items()
    }

    /// Every value pushed so far, in order.
    pub closed spec fn pushed(&self) -> Seq<T> {
        self.pushed@
    }

    /// Every value popped so far, in order.
    pub closed spec fn popped(&self) -> Seq<T> {
        self.popped@
    }

    /// The id of the semaphore that counts the items.
    pub closed spec fn items_sid(&self) -> int {
        self.csema.sid()
    }

    /// The id of the semaphore that counts the free places.
    pub closed spec fn space_sid(&self) -> int {
        self.psema.sid()
    }

    /// Most items the queue holds: the maximum of its space semaphore.
    pub open spec fn capacity(&self, k: &Kernel) -> int {
        k.sema_map()[self.space_sid()].max_count as int
    }

    /// Both semaphores are live and distinct, with the capacity as maximum;
    /// the item count is the number of queued items and the space count the
    /// number of free places; the popped values followed by the queued ones
    /// are the pushed ones.
    pub open spec fn wf(&self, k: &Kernel) -> bool {
        &&& k.has_sema(self.items_sid())
        &&& k.has_sema(self.space_sid())
        &&& self.items_sid() != self.space_sid()
        &&& k.sema_map()[self.items_sid()].max_count == self.capacity(k)
        &&& k.sema_count(self.items_sid()) == self.items().len()
        &&& k.sema_count(self.space_sid()) == self.capacity(k) - self.items().len()
        &&& self.popped() + self.items() == self.pushed()
    }

    /// At every instant the queue holds at most its capacity, and the item and
    /// space counts add up to the capacity.
    pub proof fn lemma_capacity(&self, k: &Kernel)
        requires
            k.wf(),
            self.wf(k),
        ensures
            self.items().len() <= self.capacity(k),
            k.sema_count(self.items_sid()) + k.sema_count(self.space_sid()) == self.capacity(k),
    {
        k.lemma_wf();
        assert(k.has_sema(self.space_sid()));
    }

    /// Every value pushed is popped exactly once, in the order pushed: once
    /// the queue is drained, the popped values are the pushed ones.
    pub proof fn lemma_conservation(&self, k: &Kernel)
        requires
            self.wf(k),
            self.items().len() == 0,
        ensures
            self.popped() == self.pushed(),
    {
        assert(self.popped() + self.items() =~= self.popped());
    }

    /// Under any interleaving of producers and consumers, at every instant the
    /// values popped and the values queued are, together, exactly the values
    /// pushed: none lost, none duplicated.
    pub proof fn lemma_popped_and_queued(&self, k: &Kernel)
        requires
            self.wf(k),
        ensures
            self.popped().to_multiset().add(self.items().to_multiset()) == self.pushed().to_multiset(),
    {
        lemma_multiset_commutative(self.popped(), self.items());
    }

    /// Deletes both semaphores; the queued values are dropped.
    pub fn delete(self, k: &mut Kernel)
        requires
            old(k).wf(),
            self.wf(old(k)),
        ensures
            final(k).wf(),
            final(k).same_threads(old(k)),
            final(k).sema_slots_left() == old(k).sema_slots_left(),
            final(k).sema_map() == old(k).sema_map().remove(self.items_sid()).remove(self.space_sid()),
    {
        let BoundedQueue { inner: _, csema, psema, pushed: _, popped: _ } = self;
        csema.delete(k);
        psema.delete(k);
    }

    /// An empty queue of `count` places; the kernel must have room for its two
    /// semaphores, in slots never used or freed.
    pub fn new(k: &mut Kernel, count: usize) -> (r: BoundedQueue<T>)
        requires
            old(k).wf(),
            old(k).live_semas() + 2 <= crate::kernel::MAX_SEMAS,
            1 <= count <= COUNT_LIMIT,
        ensures
            final(k).wf(),
            final(k).same_threads(old(k)),
            r.wf(final(k)),
            r.capacity(final(k)) == count,
            r.items() == Seq::<T>::empty(),
            r.pushed() == Seq::<T>::empty(),
            !old(k).has_sema(r.items_sid()),
            !old(k).has_sema(r.space_sid()),
            final(k).sema_map() == old(k).sema_map().insert(r.items_sid(), empty_count(count as int)).insert(
                r.space_sid(),
                full_count(count as int),
            ),
            final(k).sema_slots_left() + 2 >= old(k).sema_slots_left(),
    {
        proof {
            old(k).lemma_sema_room();
        }
        let csema = match Sema::builder().init_count(0).max_count(count as u32).build(k) {
            Ok(s) => s,
            Err(_) => {
                proof {
                    assert(false);
                }
                Sema::from_raw(0)
            },
        };
        proof {
            k.lemma_sema_room();
            assert(k.sema_map().dom() =~= old(k).sema_map().dom().insert(csema.sid()));
        }
        let psema = match Sema::builder().init_count(count as u32).max_count(count as u32).build(k) {
            Ok(s) => s,
            Err(_) => {
                proof {
                    assert(false);
                }
                Sema::from_raw(0)
            },
        };
        BoundedQueue {
            inner: SyncDequeue::with_capacity(count),
            csema,
            psema,
            pushed: Ghost(Seq::empty()),
            popped: Ghost(Seq::empty()),
        }
    }

    /// Appends after a successful wait or poll on the space semaphore, then
    /// signals the item semaphore.
    fn put_back(&mut self, k: &mut Kernel, val: T, irq: bool)
        requires
            old(k).wf(),
            k_after_space_taken(*old(self), *old(k)),
        ensures
            final(k).wf(),
            final(k).same_threads(old(k)),
            final(k).sema_slots_left() == old(k).sema_slots_left(),
            final(k).sema_map() == old(k).with_count(old(self).items_sid(), old(self).items().len() + 1int),
            final(self).items_sid() == old(self).items_sid(),
            final(self).space_sid() == old(self).space_sid(),
            final(self).items() == old(self).items().push(val),
            final(self).pushed() == old(self).pushed().push(val),
            final(self).popped() == old(self).popped(),
            final(self).wf(final(k)),
            final(self).capacity(final(k)) == old(self).capacity(old(k)),
    {
        proof {
            k.lemma_wf();
            assert(k.has_sema(self.space_sid()));
        }
        self.inner.push(val);
        self.pushed = Ghost(self.pushed@.push(val));
        proof {
            assert(self.popped@ + self.inner.items() =~= self.pushed@);
        }
        if irq {
            self.csema.irq_signal(k);
        } else {
            self.csema.signal(k);
        }
    }

    /// Takes the oldest item after a successful wait or poll on the item
    /// semaphore, then signals the space semaphore.
    fn take_front(&mut self, k: &mut Kernel, irq: bool) -> (r: T)
        requires
            old(k).wf(),
            k_after_item_taken(*old(self), *old(k)),
        ensures
            final(k).wf(),
            final(k).same_threads(old(k)),
            final(k).sema_slots_left() == old(k).sema_slots_left(),
            final(k).sema_map() == old(k).with_count(
                old(self).space_sid(),
                old(k).sema_count(old(self).space_sid()) + 1,
            ),
            final(self).items_sid() == old(self).items_sid(),
            final(self).space_sid() == old(self).space_sid(),
            r == old(self).items()[0],
            final(self).items() == old(self).items().drop_first(),
            final(self).popped() == old(self).popped().push(r),
            final(self).pushed() == old(self).pushed(),
            final(self).wf(final(k)),
            final(self).capacity(final(k)) == old(self).capacity(old(k)),
    {
        let v = match self.inner.pop() {
            Some(v) => v,
            None => unreached(),
        };
        self.popped = Ghost(self.popped@.push(v));
        proof {
            assert(self.popped@ + self.inner.items() =~= old(self).popped@ + old(self).inner.items());
        }
        if irq {
            self.psema.irq_signal(k);
        } else {
            self.psema.signal(k);
        }
        v
    }

    /// Waits for a free place, then appends `val`. The queue must not be full:
    /// with no other thread left to pop, the wait would never return.
    pub fn push(&mut self, k: &mut Kernel, val: T)
        requires
            old(k).wf(),
            old(self).wf(old(k)),
            old(self).items().len() < old(self).capacity(old(k)),
        ensures
            final(k).wf(),
            final(k).same_threads(old(k)),
            final(k).sema_slots_left() == old(k).sema_slots_left(),
            final(self).wf(final(k)),
            final(self).capacity(final(k)) == old(self).capacity(old(k)),
            final(self).items_sid() == old(self).items_sid(),
            final(self).space_sid() == old(self).space_sid(),
            final(self).items() == old(self).items().push(val),
            final(self).pushed() == old(self).pushed().push(val),
            final(self).popped() == old(self).popped(),
            final(k).sema_map() == old(k).with_counts(
                old(self).space_sid(),
                old(k).sema_count(old(self).space_sid()) - 1,
                old(self).items_sid(),
                old(self).items().len() + 1int,
            ),
    {
        self.psema.wait(k);
        self.put_back(k, val, false);
    }

    /// Appends `val` if there is a free place; otherwise hands it back.
    pub fn try_push(&mut self, k: &mut Kernel, val: T) -> (r: Result<(), T>)
        requires
            old(k).wf(),
            old(self).wf(old(k)),
        ensures
            final(k).wf(),
            final(k).same_threads(old(k)),
            final(k).sema_slots_left() == old(k).sema_slots_left(),
            final(self).wf(final(k)),
            final(self).capacity(final(k)) == old(self).capacity(old(k)),
            final(self).items_sid() == old(self).items_sid(),
            final(self).space_sid() == old(self).space_sid(),
            final(self).popped() == old(self).popped(),
            r is Err <==> old(self).items().len() == old(self).capacity(old(k)),
            r is Err ==> r == Err::<(), T>(val) && final(self).items() == old(self).items()
                && final(self).pushed() == old(self).pushed() && final(k).sema_map() == old(k).sema_map(),
            r is Ok ==> final(self).items() == old(self).items().push(val) && final(self).pushed()
                == old(self).pushed().push(val),
            r is Ok ==> final(k).sema_map() == old(k).with_counts(
                old(self).space_sid(),
                old(k).sema_count(old(self).space_sid()) - 1,
                old(self).items_sid(),
                old(self).items().len() + 1int,
            ),
    {
        proof {
            self.lemma_capacity(k);
        }
        if self.psema.poll(k) {
            self.put_back(k, val, false);
            Ok(())
        } else {
            Err(val)
        }
    }

    /// As [`BoundedQueue::try_push`], from interrupt context.
    pub fn irq_try_push(&mut self, k: &mut Kernel, val: T) -> (r: Result<(), T>)
        requires
            old(k).wf(),
            old(self).wf(old(k)),
        ensures
            final(k).wf(),
            final(k).same_threads(old(k)),
            final(k).sema_slots_left() == old(k).sema_slots_left(),
            final(self).wf(final(k)),
            final(self).capacity(final(k)) == old(self).capacity(old(k)),
            final(self).items_sid() == old(self).items_sid(),
            final(self).space_sid() == old(self).space_sid(),
            final(self).popped() == old(self).popped(),
            r is Err <==> old(self).items().len() == old(self).capacity(old(k)),
            r is Err ==> r == Err::<(), T>(val) && final(self).items() == old(self).items()
                && final(self).pushed() == old(self).pushed() && final(k).sema_map() == old(k).sema_map(),
            r is Ok ==> final(self).items() == old(self).items().push(val) && final(self).pushed()
                == old(self).pushed().push(val),
            r is Ok ==> final(k).sema_map() == old(k).with_counts(
                old(self).space_sid(),
                old(k).sema_count(old(self).space_sid()) - 1,
                old(self).items_sid(),
                old(self).items().len() + 1int,
            ),
    {
        proof {
            self.lemma_capacity(k);
        }
        if self.psema.irq_poll(k) {
            self.put_back(k, val, true);
            Ok(())
        } else {
            Err(val)
        }
    }

    /// Waits for an item, then takes the oldest. The queue must not be empty:
    /// with no other thread left to push, the wait would never return.
    pub fn pop(&mut self, k: &mut Kernel) -> (r: T)
        requires
            old(k).wf(),
            old(self).wf(old(k)),
            old(self).items().len() > 0,
        ensures
            final(k).wf(),
            final(k).same_threads(old(k)),
            final(k).sema_slots_left() == old(k).sema_slots_left(),
            final(self).wf(final(k)),
            final(self).capacity(final(k)) == old(self).capacity(old(k)),
            final(self).items_sid() == old(self).items_sid(),
            final(self).space_sid() == old(self).space_sid(),
            r == old(self).items()[0],
            final(self).items() == old(self).items().drop_first(),
            final(self).popped() == old(self).popped().push(r),
            final(self).pushed() == old(self).pushed(),
            final(k).sema_map() == old(k).with_counts(
                old(self).items_sid(),
                old(self).items().len() - 1int,
                old(self).space_sid(),
                old(k).sema_count(old(self).space_sid()) + 1,
            ),
    {
        self.csema.wait(k);
        self.take_front(k, false)
    }

    /// The oldest item, or `None` when the queue is empty.
    pub fn try_pop(&mut self, k: &mut Kernel) -> (r: Option<T>)
        requires
            old(k).wf(),
            old(self).wf(old(k)),
        ensures
            final(k).wf(),
            final(k).same_threads(old(k)),
            final(k).sema_slots_left() == old(k).sema_slots_left(),
            final(self).wf(final(k)),
            final(self).capacity(final(k)) == old(self).capacity(old(k)),
            final(self).items_sid() == old(self).items_sid(),
            final(self).space_sid() == old(self).space_sid(),
            final(self).pushed() == old(self).pushed(),
            r is Some <==> old(self).items().len() > 0,
            r is None ==> final(self).items() == old(self).items() && final(self).popped()
                == old(self).popped() && final(k).sema_map() == old(k).sema_map(),
            r matches Some(v) ==> v == old(self).items()[0] && final(self).items()
                == old(self).items().drop_first() && final(self).popped() == old(self).popped().push(v),
            r is Some ==> final(k).sema_map() == old(k).with_counts(
                old(self).items_sid(),
                old(self).items().len() - 1int,
                old(self).space_sid(),
                old(k).sema_count(old(self).space_sid()) + 1,
            ),
    {
        if self.csema.poll(k) {
            Some(self.take_front(k, false))
        } else {
            None
        }
    }

    /// As [`BoundedQueue::try_pop`], from interrupt context.
    pub fn irq_try_pop(&mut self, k: &mut Kernel) -> (r: Option<T>)
        requires
            old(k).wf(),
            old(self).wf(old(k)),
        ensures
            final(k).wf(),
            final(k).same_threads(old(k)),
            final(k).sema_slots_left() == old(k).sema_slots_left(),
            final(self).wf(final(k)),
            final(self).capacity(final(k)) == old(self).capacity(old(k)),
            final(self).items_sid() == old(self).items_sid(),
            final(self).space_sid() == old(self).space_sid(),
            final(self).pushed() == old(self).pushed(),
            r is Some <==> old(self).items().len() > 0,
            r is None ==> final(self).items() == old(self).items() && final(self).popped()
                == old(self).popped() && final(k).sema_map() == old(k).sema_map(),
            r matches Some(v) ==> v == old(self).items()[0] && final(self).items()
                == old(self).items().drop_first() && final(self).popped() == old(self).popped().push(v),
            r is Some ==> final(k).sema_map() == old(k).with_counts(
                old(self).items_sid(),
                old(self).items().len() - 1int,
                old(self).space_sid(),
                old(k).sema_count(old(self).space_sid()) + 1,
            ),
    {
        if self.csema.irq_poll(k) {
            Some(self.take_front(k, true))
        } else {
            None
        }
    }
}

/// The state between taking a free place and appending: the space count is
/// one below the free places, the item count still equals the items.
spec fn k_after_space_taken<T>(q: BoundedQueue<T>, k: Kernel) -> bool {
    &&& k.has_sema(q.items_sid())
    &&& k.has_sema(q.space_sid())
    &&& q.items_sid() != q.space_sid()
    &&& k.sema_map()[q.items_sid()].max_count == q.capacity(&k)
    &&& k.sema_count(q.items_sid()) == q.items().len()
    &&& k.sema_count(q.space_sid()) == q.capacity(&k) - q.items().len() - 1
    &&& q.popped() + q.items() == q.pushed()
}

/// The state between taking an item's count and removing it: the item count is
/// one below the items, the space count still equals the free places.
spec fn k_after_item_taken<T>(q: BoundedQueue<T>, k: Kernel) -> bool {
    &&& k.has_sema(q.items_sid())
    &&& k.has_sema(q.space_sid())
    &&& q.items_sid() != q.space_sid()
    &&& k.sema_map()[q.items_sid()].max_count == q.capacity(&k)
    &&& q.items().len() > 0
    &&& k.sema_count(q.items_sid()) == q.items().len() - 1
    &&& k.sema_count(q.space_sid()) == q.capacity(&k) - q.items().len()
    &&& q.popped() + q.items() == q.pushed()
}

} // verus!
