//! Counting semaphores: one kernel semaphore per [`Sema`].
use vstd::prelude::*;
use crate::ffi::{self, rejected, Result, Syscall};
use crate::kernel::{Kernel, new_sema};
use crate::os::SemaParam;

verus! {

/// Largest count a [`SemaBuilder`] asks for when none is set.
pub const DEFAULT_MAX_COUNT: u32 = 255;

/// Largest count the kernel stores; larger requests are clamped to it.
pub const COUNT_LIMIT: u32 = 0x7fff_ffff;

pub open spec fn clamp_count(c: u32) -> i32 {
    if c > COUNT_LIMIT {
        COUNT_LIMIT as i32
    } else {
        c as i32
    }
}

/// The parameters that a builder with these counts hands to the kernel.
pub open spec fn sema_param(max_count: u32, init_count: u32) -> SemaParam {
    SemaParam {
        count: 0,
        max_count: clamp_count(max_count),
        init_count: clamp_count(init_count),
        attr: 0,
        option: 0,
    }
}

/// The kernel accepts a semaphore of these counts.
pub open spec fn counts_accepted(max_count: u32, init_count: u32) -> bool {
    1 <= clamp_count(max_count) && clamp_count(init_count) <= clamp_count(max_count)
}

/// The counts of a semaphore to create: maximum 255 and initial 0 unless set.
#[derive(Debug, Clone, Copy)]
pub struct SemaBuilder {
    max_count: u32,
    init_count: u32,
}

impl SemaBuilder {
    pub closed spec fn max_count_spec(&self) -> u32 {
        self.max_count
    }

    pub closed spec fn init_count_spec(&self) -> u32 {
        self.init_count
    }

    pub fn new() -> (r: SemaBuilder)
        ensures
            r.max_count_spec() == DEFAULT_MAX_COUNT,
            r.init_count_spec() == 0,
    {
        SemaBuilder { max_count: DEFAULT_MAX_COUNT, init_count: 0 }
    }

    pub fn max_count(self, count: u32) -> (r: SemaBuilder)
        ensures
            r.max_count_spec() == count,
            r.init_count_spec() == self.init_count_spec(),
    {
        SemaBuilder { max_count: count, ..self }
    }

    pub fn init_count(self, count: u32) -> (r: SemaBuilder)
        ensures
            r.init_count_spec() == count,
            r.max_count_spec() == self.max_count_spec(),
    {
        SemaBuilder { init_count: count, ..self }
    }

    /// Creates the semaphore, with both counts clamped to [`COUNT_LIMIT`].
    /// The kernel rejects a maximum of zero, an initial count above the
    /// maximum, and a full table.
    pub fn build(self, k: &mut Kernel) -> (r: Result<Sema>)
        requires
            old(k).wf(),
        ensures
            final(k).wf(),
            final(k).same_threads(old(k)),
            r is Ok <==> counts_accepted(self.max_count_spec(), self.init_count_spec())
                && old(k).sema_room(),
            r matches Err(e) ==> e == ffi::rejected(Syscall::CreateSema)
                && final(k).same_semas(old(k)),
            r matches Ok(s) ==> !old(k).has_sema(s.sid()),
            r matches Ok(s) ==> final(k).sema_map() == old(k).sema_map().insert( s.sid(), new_sema(sema_param(self.max_count_spec(), self.init_count_spec())), ),
            r matches Ok(s) ==> final(k).sema_slots_left() + 1 >= old(k).sema_slots_left(),
    {
        let max_count = if self.max_count > COUNT_LIMIT { COUNT_LIMIT } else { self.max_count };
        let init_count = if self.init_count > COUNT_LIMIT { COUNT_LIMIT } else { self.init_count };
        let p = SemaParam {
            count: 0,
            max_count: max_count as i32,
            init_count: init_count as i32,
            attr: 0,
            option: 0,
        };
        match ffi::create_sema(k, p) {
            Ok(sid) => Ok(Sema(sid)),
            Err(e) => Err(e),
        }
    }
}

impl Default for SemaBuilder {
    fn default() -> (r: SemaBuilder)
        ensures
            r.max_count_spec() == DEFAULT_MAX_COUNT,
            r.init_count_spec() == 0,
    {
        SemaBuilder::new()
    }
}

/// Owns one kernel semaphore, named by its id. The kernel object is freed
/// by [`Sema::delete`]; a handle dropped without it leaves the object live.
#[derive(Debug)]
pub struct Sema(i32);

impl Sema {
    pub closed spec fn sid(&self) -> int {
        self.0 as int
    }

    /// Gives up the handle and returns the id; the kernel semaphore stays live.
    pub fn into_raw(sema: Sema) -> (r: i32)
        ensures
            r == sema.sid(),
    {
        sema.0
    }

    /// Takes ownership of the semaphore of id `sid`.
    pub fn from_raw(sid: i32) -> (r: Sema)
        ensures
            r.sid() == sid,
    {
        Sema(sid)
    }

    pub fn builder() -> (r: SemaBuilder)
        ensures
            r.max_count_spec() == DEFAULT_MAX_COUNT,
            r.init_count_spec() == 0,
    {
        SemaBuilder::new()
    }

    /// A semaphore with count zero and maximum [`DEFAULT_MAX_COUNT`].
    pub fn new(k: &mut Kernel) -> (r: Result<Sema>)
        requires
            old(k).wf(),
        ensures
            final(k).wf(),
            final(k).same_threads(old(k)),
            r is Ok <==> old(k).sema_room(),
            r matches Err(e) ==> e == ffi::rejected(Syscall::CreateSema)
                && final(k).same_semas(old(k)),
            r matches Ok(s) ==> !old(k).has_sema(s.sid()),
            r matches Ok(s) ==> final(k).sema_map() == old(k).sema_map().insert( s.sid(), new_sema(sema_param(DEFAULT_MAX_COUNT, 0)), ),
            r matches Ok(s) ==> final(k).sema_slots_left() + 1 >= old(k).sema_slots_left(),
    {
        Sema::builder().build(k)
    }

    pub fn id(&self) -> (r: i32)
        ensures
            r == self.sid(),
    {
        self.0
    }

    /// Takes one from the count; the count must be positive, as no other
    /// thread is left to signal.
    pub fn wait(&self, k: &mut Kernel)
        requires
            old(k).wf(),
            old(k).can_take(self.sid()),
        ensures
            final(k).wf(),
            final(k).same_threads(old(k)),
            final(k).sema_slots_left() == old(k).sema_slots_left(),
            final(k).sema_map() == old(k).with_count(self.sid(), old(k).sema_count(self.sid()) - 1),
    {
        let r = ffi::wait_sema(k, self.0);
        proof {
            assert(r is Ok);
        }
    }

    /// Adds one to the count; the semaphore must be live and below its maximum.
    pub fn signal(&self, k: &mut Kernel)
        requires
            old(k).wf(),
            old(k).can_signal(self.sid()),
        ensures
            final(k).wf(),
            final(k).same_threads(old(k)),
            final(k).sema_slots_left() == old(k).sema_slots_left(),
            final(k).sema_map() == old(k).with_count(self.sid(), old(k).sema_count(self.sid()) + 1),
    {
        let r = ffi::signal_sema(k, self.0);
        proof {
            assert(r is Ok);
        }
    }

    /// Takes one from the count if it is positive; returns whether it did.
    pub fn poll(&self, k: &mut Kernel) -> (r: bool)
        requires
            old(k).wf(),
        ensures
            final(k).wf(),
            final(k).same_threads(old(k)),
            final(k).sema_slots_left() == old(k).sema_slots_left(),
            r == old(k).can_take(self.sid()),
            r ==> final(k).sema_map() == old(k).with_count(self.sid(), old(k).sema_count(self.sid()) - 1),
            !r ==> final(k).sema_map() == old(k).sema_map(),
    {
        ffi::poll_sema(k, self.0).is_ok()
    }

    /// Deletes the kernel semaphore.
    pub fn delete(self, k: &mut Kernel)
        requires
            old(k).wf(),
            old(k).has_sema(self.sid()),
        ensures
            final(k).wf(),
            final(k).same_threads(old(k)),
            final(k).sema_slots_left() == old(k).sema_slots_left(),
            final(k).sema_map() == old(k).sema_map().remove(self.sid()),
    {
        let r = ffi::delete_sema(k, Sema::into_raw(self));
        proof {
            assert(r is Ok);
        }
    }

    /// As [`Sema::signal`], from interrupt context.
    pub fn irq_signal(&self, k: &mut Kernel)
        requires
            old(k).wf(),
            old(k).can_signal(self.sid()),
        ensures
            final(k).wf(),
            final(k).same_threads(old(k)),
            final(k).sema_slots_left() == old(k).sema_slots_left(),
            final(k).sema_map() == old(k).with_count(self.sid(), old(k).sema_count(self.sid()) + 1),
    {
        let r = ffi::irq_signal_sema(k, self.0);
        proof {
            assert(r is Ok);
        }
    }

    /// As [`Sema::poll`], from interrupt context.
    pub fn irq_poll(&self, k: &mut Kernel) -> (r: bool)
        requires
            old(k).wf(),
        ensures
            final(k).wf(),
            final(k).same_threads(old(k)),
            final(k).sema_slots_left() == old(k).sema_slots_left(),
            r == old(k).can_take(self.sid()),
            r ==> final(k).sema_map() == old(k).with_count(self.sid(), old(k).sema_count(self.sid()) - 1),
            !r ==> final(k).sema_map() == old(k).sema_map(),
    {
        ffi::irq_poll_sema(k, self.0).is_ok()
    }

    /// As [`Sema::delete`], from interrupt context.
    pub fn irq_delete(self, k: &mut Kernel)
        requires
            old(k).wf(),
            old(k).has_sema(self.sid()),
        ensures
            final(k).wf(),
            final(k).same_threads(old(k)),
            final(k).sema_slots_left() == old(k).sema_slots_left(),
            final(k).sema_map() == old(k).sema_map().remove(self.sid()),
    {
        let r = ffi::irq_delete_sema(k, Sema::into_raw(self));
        proof {
            assert(r is Ok);
        }
    }
}

} // verus!
