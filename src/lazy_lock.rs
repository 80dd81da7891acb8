//! A value computed on first use, through [`Once`].
use vstd::prelude::*;
use crate::kernel::Kernel;
use crate::once::Once;
use crate::once_lock::run_init;

verus! {

/// Either the initializer that has not run yet, or the value it returned.
pub enum LazyData<T, F> {
    Pending(F),
    Ready(T),
}

/// Holds the initializer until first forced, and the value after; only the
/// live one of the two is ever dropped. Its mutex's semaphore is freed by
/// [`LazyLock::into_inner`]; a lock dropped without it leaves the semaphore live.
pub struct LazyLock<T, F> {
    once: Once,
    data: Option<LazyData<T, F>>,
}

impl<T, F: FnOnce() -> T> LazyLock<T, F> {
    pub closed spec fn forced(&self) -> bool {
        self.once.completed()
    }

    /// The computed value, once forced.
    pub closed spec fn value(&self) -> T {
        self.data->Some_0->Ready_0
    }

    /// The initializer, until forced.
    pub closed spec fn init_fn(&self) -> F {
        self.data->Some_0->Pending_0
    }

    pub closed spec fn once(&self) -> Once {
        self.once
    }

    pub closed spec fn inv(&self) -> bool {
        &&& self.data is Some
        &&& (self.data->Some_0 is Ready <==> self.once.completed())
    }

    /// The `Once` is well formed, and the value is there exactly when it completed.
    pub open spec fn wf(&self, k: &Kernel) -> bool {
        &&& self.once().wf(k)
        &&& self.inv()
    }

    /// Stores `f` without running it; the kernel must have room for its mutex's semaphore.
    pub fn new(k: &mut Kernel, f: F) -> (r: LazyLock<T, F>)
        requires
            old(k).wf(),
            old(k).sema_room(),
        ensures
            final(k).wf(),
            final(k).same_threads(old(k)),
            r.wf(final(k)),
            !r.forced(),
            r.once().runs() == 0,
            r.init_fn() == f,
            !old(k).has_sema(r.once().mutex().sid()),
            final(k).sema_map() == old(k).sema_map().insert(
                r.once().mutex().sid(),
                crate::mutex::free_binary_sema(),
            ),
            final(k).sema_slots_left() + 1 >= old(k).sema_slots_left(),
    {
        LazyLock { once: Once::new(k), data: Some(LazyData::Pending(f)) }
    }

    /// Deletes its mutex's semaphore and returns the value if it was computed,
    /// or else the initializer.
    pub fn into_inner(this: Self, k: &mut Kernel) -> (r: Result<T, F>)
        requires
            old(k).wf(),
            this.wf(old(k)),
        ensures
            final(k).wf(),
            final(k).same_threads(old(k)),
            final(k).sema_slots_left() == old(k).sema_slots_left(),
            final(k).sema_map() == old(k).sema_map().remove(this.once().mutex().sid()),
            r is Ok <==> this.forced(),
            r matches Ok(v) ==> v == this.value(),
            r matches Err(f) ==> f == this.init_fn(),
    {
        let LazyLock { once, data } = this;
        once.delete(k);
        match data.unwrap() {
            LazyData::Ready(v) => Ok(v),
            LazyData::Pending(f) => Err(f),
        }
    }

    /// The value, once forced.
    pub fn get(&self) -> (r: Option<&T>)
        requires
            self.inv(),
        ensures
            r is Some <==> self.forced(),
            r matches Some(v) ==> *v == self.value(),
    {
        if self.once.is_completed() {
            match self.data.as_ref().unwrap() {
                LazyData::Ready(v) => Some(v),
                LazyData::Pending(_) => None,
            }
        } else {
            None
        }
    }

    /// The value, after running the initializer on first use. Later calls
    /// run nothing and return the same value.
    pub fn force(&mut self, k: &mut Kernel) -> (r: &T)
        requires
            old(k).wf(),
            old(self).wf(old(k)),
            !old(self).forced() ==> old(self).init_fn().requires(()),
        ensures
            final(k).wf(),
            final(k).same_threads(old(k)),
            final(k).same_semas(old(k)),
            final(self).wf(final(k)),
            final(self).once().mutex().sid() == old(self).once().mutex().sid(),
            final(self).forced(),
            final(self).once().runs() == 1,
            *r == final(self).value(),
            old(self).forced() ==> final(self).value() == old(self).value(),
            !old(self).forced() ==> old(self).init_fn().ensures((), final(self).value()),
    {
        if !self.once.is_completed() {
            match self.data.take().unwrap() {
                LazyData::Pending(f) => {
                    match self.once.call_once_with(k, f, run_init::<T, F>) {
                        Ok(v) => {
                            self.data = Some(LazyData::Ready(v));
                        },
                        Err(f) => {
                            self.data = Some(LazyData::Pending(f));
                        },
                    }
                },
                LazyData::Ready(v) => {
                    self.data = Some(LazyData::Ready(v));
                },
            }
        }
        match self.data.as_ref().unwrap() {
            LazyData::Ready(v) => v,
            LazyData::Pending(_) => unreached(),
        }
    }
}

} // verus!
