//! Bits of [`crate::os::ThreadStatus::status`].
use vstd::prelude::*;

verus! {

pub const RUN: i32 = 1;
pub const READY: i32 = 2;
pub const WAIT: i32 = 4;
pub const SUSPEND: i32 = 8;
pub const WAITSUSPEND: i32 = 16;
pub const DORMANT: i32 = 32;

} // verus!
