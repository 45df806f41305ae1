//! Kernel object handles.

use vstd::prelude::*;

verus! {

/// The handle value that no kernel object ever has.
#[derive(Copy, Clone, PartialEq, Eq, Structural)]
pub struct InvalidHandle;

impl InvalidHandle {
    /// The raw value of the invalid handle, zero.
    pub fn into_inner(self) -> (r: u32)
        ensures
            r == 0,
    {
        0u32
    }
}

/// A handle to a thread. Its raw value is never zero.
#[derive(Copy, Clone, PartialEq, Eq, Structural)]
pub struct ThreadHandle {
    raw: u32,
}

impl View for ThreadHandle {
    type V = u32;

    closed spec fn view(&self) -> u32 {
        self.raw
    }
}

impl ThreadHandle {
    /// The pseudo-handle that names the calling thread.
    pub fn this_thread() -> (h: ThreadHandle)
        ensures
            h@ == 0xFFFF8000u32,
    {
        ThreadHandle { raw: 0xFFFF8000 }
    }

    #[verifier::type_invariant]
    spec fn inv(self) -> bool {
        self.raw != 0
    }

    /// Wraps a raw thread handle, which must be non-zero.
    pub fn new(inner: u32) -> (h: Self)
        requires
            inner != 0,
        ensures
            h@ == inner,
    {
        ThreadHandle { raw: inner }
    }

    /// The raw value of the handle.
    pub fn into_inner(self) -> (r: u32)
        ensures
            r == self@,
            r != 0,
    {
        proof {
            use_type_invariant(&self);
        }
        self.raw
    }
}

/// A handle to a process. Its raw value is never zero.
#[derive(Copy, Clone, PartialEq, Eq, Structural)]
pub struct ProcessHandle {
    raw: u32,
}

impl View for ProcessHandle {
    type V = u32;

    closed spec fn view(&self) -> u32 {
        self.raw
    }
}

impl ProcessHandle {
    #[verifier::type_invariant]
    spec fn inv(self) -> bool {
        self.raw != 0
    }

    /// The pseudo-handle that names the calling process.
    pub fn this_process() -> (h: ProcessHandle)
        ensures
            h@ == 0xFFFF8001u32,
    {
        ProcessHandle { raw: 0xFFFF8001 }
    }

    /// Wraps a raw process handle, which must be non-zero.
    pub fn new(raw_handle: u32) -> (h: Self)
        requires
            raw_handle != 0,
        ensures
            h@ == raw_handle,
    {
        ProcessHandle { raw: raw_handle }
    }

    /// The raw value of the handle.
    pub fn into_inner(self) -> (r: u32)
        ensures
            r == self@,
            r != 0,
    {
        proof {
            use_type_invariant(&self);
        }
        self.raw
    }
}

} // verus!
