//! Address segments and interrupt masking.
use vstd::prelude::*;
use crate::kernel::Kernel;

verus! {

/// The address bit that selects the uncached view of main memory.
pub const UNCACHED_SEG_BIT: usize = 0x2000_0000;

/// The uncached view of the address `addr`.
pub fn uncached_seg(addr: usize) -> (r: usize)
    ensures
        r == addr | UNCACHED_SEG_BIT,
{
    addr | UNCACHED_SEG_BIT
}

/// The uncached view of the address `addr` of a region that is written.
pub fn uncached_seg_mut(addr: usize) -> (r: usize)
    ensures
        r == addr | UNCACHED_SEG_BIT,
{
    addr | UNCACHED_SEG_BIT
}

/// Whether `addr` lies in the uncached view.
pub fn is_uncached_seg(addr: usize) -> (r: bool)
    ensures
        r == (addr & UNCACHED_SEG_BIT != 0),
{
    addr & UNCACHED_SEG_BIT != 0
}

/// A value on a cache line of its own.
#[derive(Debug, Clone, Copy, Default, PartialEq, Eq, PartialOrd, Ord)]
pub struct CacheAligned<T>(pub T);

impl<T> CacheAligned<T> {
    pub fn get(&self) -> (r: &T)
        ensures
            *r == self.0,
    {
        &self.0
    }

    pub fn get_mut(&mut self) -> (r: &mut T)
        ensures
            *r == old(self).0,
            final(self).0 == *final(r),
    {
        &mut self.0
    }
}

/// Interrupts are masked while this guard is out; `release` restores the
/// state found when it was taken.
pub struct IntrDisableGuard(bool);

impl IntrDisableGuard {
    /// Interrupts were enabled when the guard was taken.
    pub closed spec fn was_enabled(&self) -> bool {
        self.0
    }

    /// Enables interrupts again if they were enabled when the guard was taken.
    pub fn release(self, k: &mut Kernel)
        requires
            old(k).wf(),
        ensures
            final(k).wf(),
            final(k).interrupts_enabled() == (old(k).interrupts_enabled() || self.was_enabled()),
            final(k).same_semas(old(k)),
            final(k).thread_map() == old(k).thread_map(),
            final(k).current_id() == old(k).current_id(),
            final(k).thread_slots_left() == old(k).thread_slots_left(),
    {
        if self.0 {
            k.enable_interrupts();
        }
    }
}

/// Masks interrupts, and remembers whether they were enabled.
pub fn interrupt_disable_guard(k: &mut Kernel) -> (g: IntrDisableGuard)
    requires
        old(k).wf(),
    ensures
        final(k).wf(),
        !final(k).interrupts_enabled(),
        g.was_enabled() == old(k).interrupts_enabled(),
        final(k).same_semas(old(k)),
        final(k).thread_map() == old(k).thread_map(),
        final(k).current_id() == old(k).current_id(),
        final(k).thread_slots_left() == old(k).thread_slots_left(),
{
    let status = k.are_interrupts_enabled();
    if status {
        k.disable_interrupts();
    }
    IntrDisableGuard(status)
}

} // verus!
