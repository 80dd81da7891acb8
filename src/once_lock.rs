//! A cell written at most once, through [`Once`].
use vstd::prelude::*;
use crate::kernel::Kernel;
use crate::once::Once;

verus! {

/// Calls `f`; the initializer handed to [`Once::call_once_with`].
pub(crate) fn run_init<T, F: FnOnce() -> T>(f: F) -> (r: T)
    requires
        f.requires(()),
    ensures
        f.ensures((), r),
{
    f()
}

/// Hands the value through; the initializer of [`OnceLock::set`].
fn keep<T>(v: T) -> (r: T)
    ensures
        r == v,
{
    v
}

/// Empty until the first of `set` or `get_or_init` stores a value; later
/// values are handed back to their callers unused. Its mutex's semaphore is
/// freed by [`OnceLock::into_inner`]; a cell dropped without it leaves the
/// semaphore live.
pub struct OnceLock<T> {
    once: Once,
    value: Option<T>,
}

impl<T> OnceLock<T> {
    pub closed spec fn initialized(&self) -> bool {
        self.once.completed()
    }

    /// The stored value, once initialized.
    pub closed spec fn value(&self) -> T {
        self.value->Some_0
    }

    pub closed spec fn once(&self) -> Once {
        self.once
    }

    /// The `Once` is well formed, and a value is stored exactly when it completed.
    pub open spec fn wf(&self, k: &Kernel) -> bool {
        &&& self.once().wf(k)
        &&& self.initialized() == self.once().completed()
        &&& self.inv()
    }

    pub closed spec fn inv(&self) -> bool {
        self.value is Some <==> self.once.completed()
    }

    /// An empty cell; the kernel must have room for its mutex's semaphore.
    pub fn new(k: &mut Kernel) -> (r: OnceLock<T>)
        requires
            old(k).wf(),
            old(k).sema_room(),
        ensures
            final(k).wf(),
            final(k).same_threads(old(k)),
            r.wf(final(k)),
            !r.initialized(),
            !old(k).has_sema(r.once().mutex().sid()),
            final(k).sema_map() == old(k).sema_map().insert(
                r.once().mutex().sid(),
                crate::mutex::free_binary_sema(),
            ),
            final(k).sema_slots_left() + 1 >= old(k).sema_slots_left(),
    {
        OnceLock { once: Once::new(k), value: None }
    }

    pub fn is_initialized(&self) -> (r: bool)
        ensures
            r == self.initialized(),
    {
        self.once.is_completed()
    }

    /// The value, once initialized.
    pub fn get(&self) -> (r: Option<&T>)
        requires
            self.inv(),
        ensures
            r is Some <==> self.initialized(),
            r matches Some(v) ==> *v == self.value(),
    {
        if self.is_initialized() {
            self.value.as_ref()
        } else {
            None
        }
    }

    /// Direct access to the value, once initialized.
    pub fn get_mut(&mut self) -> (r: Option<&mut T>)
        requires
            old(self).inv(),
        ensures
            r is Some <==> old(self).initialized(),
            r matches Some(v) ==> *v == old(self).value(),
            final(self).initialized() == old(self).initialized(),
            final(self).once() == old(self).once(),
            final(self).inv(),
            r matches Some(v) ==> final(self).value() == *final(v),
            r is None ==> *final(self) == *old(self),
    {
        if self.is_initialized() {
            self.value.as_mut()
        } else {
            None
        }
    }

    /// Takes the value out and leaves the cell empty, with a fresh `Once`;
    /// the kernel must then have room for the new mutex's semaphore.
    pub fn take(&mut self, k: &mut Kernel) -> (r: Option<T>)
        requires
            old(k).wf(),
            old(self).wf(old(k)),
            old(self).initialized() ==> old(k).sema_room(),
        ensures
            final(k).wf(),
            final(k).same_threads(old(k)),
            final(self).wf(final(k)),
            !final(self).initialized(),
            r is Some <==> old(self).initialized(),
            r matches Some(v) ==> v == old(self).value(),
            r is None ==> *final(self) == *old(self) && final(k).same_semas(old(k)),
            r is Some ==> final(k).sema_map() == old(k).sema_map().insert(
                final(self).once().mutex().sid(),
                crate::mutex::free_binary_sema(),
            ).remove(old(self).once().mutex().sid()),
    {
        if self.is_initialized() {
            let mut fresh = Once::new(k);
            core::mem::swap(&mut self.once, &mut fresh);
            fresh.delete(k);
            proof {
                assert(old(self).once().mutex().sid() != self.once().mutex().sid());
            }
            self.value.take()
        } else {
            None
        }
    }

    fn init<F: FnOnce() -> T>(&mut self, k: &mut Kernel, f: F)
        requires
            old(k).wf(),
            old(self).wf(old(k)),
            !old(self).initialized() ==> f.requires(()),
        ensures
            final(k).wf(),
            final(k).same_threads(old(k)),
            final(k).same_semas(old(k)),
            final(self).wf(final(k)),
            final(self).once().mutex().sid() == old(self).once().mutex().sid(),
            final(self).initialized(),
            old(self).initialized() ==> final(self).value() == old(self).value(),
            !old(self).initialized() ==> f.ensures((), final(self).value()),
    {
        match self.once.call_once_with(k, f, run_init::<T, F>) {
            Ok(v) => {
                self.value = Some(v);
            },
            Err(_) => {},
        }
    }

    /// The value, after running `f` to store it if the cell is still empty.
    pub fn get_or_init<F: FnOnce() -> T>(&mut self, k: &mut Kernel, f: F) -> (r: &T)
        requires
            old(k).wf(),
            old(self).wf(old(k)),
            !old(self).initialized() ==> f.requires(()),
        ensures
            final(k).wf(),
            final(k).same_threads(old(k)),
            final(k).same_semas(old(k)),
            final(self).wf(final(k)),
            final(self).once().mutex().sid() == old(self).once().mutex().sid(),
            final(self).initialized(),
            *r == final(self).value(),
            old(self).initialized() ==> final(self).value() == old(self).value(),
            !old(self).initialized() ==> f.ensures((), final(self).value()),
    {
        self.init(k, f);
        self.value.as_ref().unwrap()
    }

    /// Stores `value` if the cell is still empty; otherwise hands it back.
    pub fn set(&mut self, k: &mut Kernel, value: T) -> (r: Result<(), T>)
        requires
            old(k).wf(),
            old(self).wf(old(k)),
        ensures
            final(k).wf(),
            final(k).same_threads(old(k)),
            final(k).same_semas(old(k)),
            final(self).wf(final(k)),
            final(self).once().mutex().sid() == old(self).once().mutex().sid(),
            final(self).initialized(),
            r is Ok <==> !old(self).initialized(),
            r is Err ==> r == Err::<(), T>(value) && final(self).value() == old(self).value(),
            r is Ok ==> final(self).value() == value,
    {
        match self.once.call_once_with(k, value, keep::<T>) {
            Ok(v) => {
                self.value = Some(v);
                Ok(())
            },
            Err(v) => Err(v),
        }
    }

    /// Deletes its mutex's semaphore and returns the value, if any.
    pub fn into_inner(self, k: &mut Kernel) -> (r: Option<T>)
        requires
            old(k).wf(),
            self.wf(old(k)),
        ensures
            final(k).wf(),
            final(k).same_threads(old(k)),
            final(k).sema_slots_left() == old(k).sema_slots_left(),
            final(k).sema_map() == old(k).sema_map().remove(self.once().mutex().sid()),
            r is Some <==> self.initialized(),
            r matches Some(v) ==> v == self.value(),
    {
        let OnceLock { once, value } = self;
        once.delete(k);
        value
    }
}

} // verus!
