//! Synchronization and thread-lifecycle primitives built on the counting
//! semaphores and cooperative threads of a small microkernel.
//!
//! The kernel is an explicit context ([`kernel::Kernel`]) handed to every
//! operation; each primitive states its behaviour over the kernel's view.
pub mod arch;
pub mod color;
pub mod deci2;
pub mod ffi;
pub mod harness;
pub mod kernel;
pub mod lazy_lock;
pub mod mpmc;
pub mod mutex;
pub mod once;
pub mod once_lock;
pub mod os;
pub mod printer;
pub mod sema;
pub mod thread;
pub mod thread_status;
