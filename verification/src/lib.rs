//! Verified core of a runtime library for the NX system (Horizon OS).
//!
//! The library holds the computations of the runtime: kernel handles and
//! result codes, the memory-region queries, the user-space mutex protocol,
//! the thread-local region layout, thread creation and the virtual memory
//! reservations, module relocation and the IPC header encodings. Every
//! kernel call and every raw memory access is performed by the caller, who
//! hands the results to the functions of this crate.

pub mod handle;
pub mod result;
pub mod svc;
pub mod memory;
pub mod mutex;
pub mod virtmem;
pub mod thread;
pub mod rtld;
pub mod services;
pub mod random;
pub mod nnfs;

use vstd::prelude::*;

verus! {

/// Size of a memory page of the system.
pub const PAGE_SIZE: usize = 0x1000;

} // verus!
