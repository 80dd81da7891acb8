//! Records exchanged with the kernel: semaphore and thread parameters and statuses.
use vstd::prelude::*;

verus! {

/// Parameters of a counting semaphore, and its status when read back.
#[derive(Debug, Clone, Copy, PartialEq, Eq, Structural)]
pub struct SemaParam {
    pub count: i32,
    pub max_count: i32,
    pub init_count: i32,
    pub attr: u32,
    pub option: u32,
}

/// Parameters of a thread to create.
#[derive(Debug, Clone, Copy, PartialEq, Eq, Structural)]
pub struct ThreadParam {
    pub status: i32,
    pub stack_size: i32,
    pub initial_priority: i32,
    pub current_priority: i32,
    pub attr: u32,
    pub option: u32,
}

/// The status of a thread as the kernel reports it.
#[derive(Debug, Clone, Copy, PartialEq, Eq, Structural)]
pub struct ThreadStatus {
    pub status: i32,
    pub stack_size: i32,
    pub initial_priority: i32,
    pub current_priority: i32,
    pub attr: u32,
    pub option: u32,
    pub wait_type: u32,
    pub wait_id: u32,
    pub wakeup_count: u32,
}

} // verus!
