//! Threads and their thread-local region.
//!
//! Every thread has a 0x200-byte thread-local region: a 0x100-byte IPC
//! buffer for messages to services, fields the kernel maintains, a reserved
//! area, and a 0x80-byte user area at offset 0x180. This library keeps, at
//! the start of the user area, an array of thread-local slots, and after
//! them, in the last 16 bytes, its per-thread variables, among which the
//! thread's handle.

pub mod spawn;

use core::marker::PhantomData;
use vstd::prelude::*;
use vstd::bytes::{spec_u32_from_le_bytes, spec_u32_to_le_bytes, spec_u64_from_le_bytes};
use crate::result::{NxError, NxResult};

verus! {

/// Size of the IPC buffer at the start of the thread-local region.
pub const IPC_BUFFER_SIZE: usize = 0x100;

/// Size of the reserved area, which starts at offset 0x114.
pub const RESERVED_SIZE: usize = 0x6C;

/// Size of the user area, which starts at offset 0x180.
pub const USER_REGION_SIZE: usize = 0x80;

/// Offset of the user area in the thread-local region.
pub const USER_REGION_OFFSET: usize = 0x180;

/// Number of thread-local slots, 8 bytes each, from the start of the user area.
pub const NUM_TLS_SLOTS: usize = 14;

/// Offset of the per-thread variables from the start of the user area: they
/// take its last 16 bytes (16-aligned, at offset 0x1F0 of the region), and
/// the slots fill the space before them.
pub const VARIABLE_OFFSET: usize = 0x70;

/// Offset of the thread handle inside the per-thread variables.
pub const THREAD_HANDLE_OFFSET: usize = 8;

/// A thread's thread-local region.
pub struct ThreadLocalRegion {
    ipc_buffer: [u8; 0x100],
    disable_counter: u16,
    interrupt_flag: u16,
    cache_maintenance_flag: u8,
    thread_cpu_time: u64,
    current_thread_handle: u32,
    reserved: [u8; 0x6C],
    user_region: [u8; 0x80],
}

/// The kernel-maintained fields of a thread-local region.
#[derive(Debug, Copy, Clone, PartialEq, Eq, Structural)]
pub struct KernelFields {
    pub disable_counter: u16,
    pub interrupt_flag: u16,
    pub cache_maintenance_flag: u8,
    pub thread_cpu_time: u64,
    pub current_thread_handle: u32,
}

impl ThreadLocalRegion {
    /// The IPC buffer.
    pub closed spec fn ipc(&self) -> Seq<u8> {
        self.ipc_buffer@
    }

    /// The fields maintained by the kernel.
    pub closed spec fn kernel(&self) -> KernelFields {
        KernelFields {
            disable_counter: self.disable_counter,
            interrupt_flag: self.interrupt_flag,
            cache_maintenance_flag: self.cache_maintenance_flag,
            thread_cpu_time: self.thread_cpu_time,
            current_thread_handle: self.current_thread_handle,
        }
    }

    /// The reserved area followed by the user area: the 0xEC bytes from offset 0x114.
    pub closed spec fn user_bytes(&self) -> Seq<u8> {
        self.reserved@ + self.user_region@
    }

    /// The reserved area: the 0x6C bytes from offset 0x114.
    pub closed spec fn reserved_area(&self) -> Seq<u8> {
        self.reserved@
    }

    /// The user area: the 0x80 bytes from offset 0x180.
    pub closed spec fn user_area(&self) -> Seq<u8> {
        self.user_region@
    }

    /// The thread-local slots: the little-endian words at the start of the user area.
    pub open spec fn slots_spec(&self) -> Seq<u64> {
        Seq::new(14, |k: int| spec_u64_from_le_bytes(self.user_area().subrange(8 * k, 8 * k + 8)))
    }

    /// The thread handle stored in the per-thread variables, 8 bytes into them.
    pub open spec fn thread_handle_spec(&self) -> u32 {
        spec_u32_from_le_bytes(self.user_area().subrange(0x78, 0x7C))
    }

    /// The user bytes are the reserved area followed by the user area.
    pub proof fn lemma_user_bytes(&self)
        ensures
            self.user_bytes() == self.reserved_area() + self.user_area(),
            self.reserved_area().len() == 0x6C,
            self.user_area().len() == 0x80,
    {
    }

    /// A region with the given contents.
    pub fn new(ipc_buffer: [u8; 0x100], kernel: KernelFields, reserved: [u8; 0x6C], user_region: [u8; 0x80]) -> (r: Self)
        ensures
            r.ipc() == ipc_buffer@,
            r.kernel() == kernel,
            r.user_bytes() == reserved@ + user_region@,
            r.reserved_area() == reserved@,
            r.user_area() == user_region@,
    {
        ThreadLocalRegion {
            ipc_buffer,
            disable_counter: kernel.disable_counter,
            interrupt_flag: kernel.interrupt_flag,
            cache_maintenance_flag: kernel.cache_maintenance_flag,
            thread_cpu_time: kernel.thread_cpu_time,
            current_thread_handle: kernel.current_thread_handle,
            reserved,
            user_region,
        }
    }

    /// The reserved area and the user area, to be written back to the thread's region.
    pub fn user_areas(&self) -> (r: ([u8; 0x6C], [u8; 0x80]))
        ensures
            r.0@ + r.1@ == self.user_bytes(),
    {
        (self.reserved, self.user_region)
    }

    /// The IPC buffer.
    pub fn raw_ipc_buffer(&self) -> (r: &[u8; 0x100])
        ensures
            r@ == self.ipc(),
    {
        &self.ipc_buffer
    }

    /// The IPC buffer, for writing.
    pub fn raw_ipc_buffer_mut(&mut self) -> (r: &mut [u8; 0x100])
        ensures
            r@ == old(self).ipc(),
            final(self).ipc() == final(r)@,
            final(self).kernel() == old(self).kernel(),
            final(self).user_bytes() == old(self).user_bytes(),
    {
        &mut self.ipc_buffer
    }

    /// Writes the bytes of a value shorter than the IPC buffer at its start;
    /// the rest of the buffer is left as it was.
    pub fn write_ipc_buffer(&mut self, value: &[u8])
        requires
            value@.len() < 0x100,
        ensures
            final(self).ipc() == value@ + old(self).ipc().subrange(value@.len() as int, 0x100),
            final(self).kernel() == old(self).kernel(),
            final(self).user_bytes() == old(self).user_bytes(),
    {
        let mut i: usize = 0;
        while i < value.len()
            invariant
                i <= value@.len() < 0x100,
                self.ipc_buffer@.len() == 0x100,
                forall|k: int| 0 <= k < i ==> self.ipc_buffer@[k] == value@[k],
                forall|k: int| i <= k < 0x100 ==> self.ipc_buffer@[k] == old(self).ipc_buffer@[k],
                self.kernel() == old(self).kernel(),
                self.user_bytes() == old(self).user_bytes(),
            decreases value@.len() - i,
        {
            self.ipc_buffer[i] = value[i];
            i = i + 1;
        }
        assert(self.ipc() =~= value@ + old(self).ipc().subrange(value@.len() as int, 0x100));
    }

    /// Reads the first `len` bytes of the IPC buffer.
    pub fn read_ipc_buffer(&self, len: usize) -> (r: Vec<u8>)
        requires
            len <= 0x100,
        ensures
            r@ == self.ipc().subrange(0, len as int),
    {
        let mut out: Vec<u8> = Vec::new();
        let mut i: usize = 0;
        while i < len
            invariant
                i <= len <= 0x100,
                self.ipc_buffer@.len() == 0x100,
                out@ == self.ipc().subrange(0, i as int),
            decreases len - i,
        {
            out.push(self.ipc_buffer[i]);
            i = i + 1;
            assert(out@ =~= self.ipc().subrange(0, i as int));
        }
        out
    }

    /// The thread handle stored in the per-thread variables.
    pub fn thread_handle(&self) -> (r: u32)
        ensures
            r == self.thread_handle_spec(),
    {
        let bytes = vstd::slice::slice_subrange(self.user_region.as_slice(), 0x78, 0x7C);
        assert(bytes@ =~= self.user_area().subrange(0x78, 0x7C));
        vstd::bytes::u32_from_le_bytes(bytes)
    }

    /// Sets up the thread-local area of a new thread: all slots become zero
    /// and the per-thread variables record `thread_handle`; the IPC buffer,
    /// the kernel's fields and the reserved area are untouched.
    pub fn init_thread_variables(&mut self, thread_handle: u32)
        ensures
            final(self).slots_spec() == Seq::new(14, |k: int| 0u64),
            final(self).thread_handle_spec() == thread_handle,
            final(self).ipc() == old(self).ipc(),
            final(self).kernel() == old(self).kernel(),
            final(self).reserved_area() == old(self).reserved_area(),
    {
        let mut i: usize = 0;
        while i < VARIABLE_OFFSET
            invariant
                i <= 0x70,
                self.user_region@.len() == 0x80,
                forall|k: int| 0 <= k < i ==> self.user_region@[k] == 0u8,
                self.ipc() == old(self).ipc(),
                self.kernel() == old(self).kernel(),
                self.reserved_area() == old(self).reserved_area(),
            decreases 0x70 - i,
        {
            self.user_region[i] = 0;
            i = i + 1;
        }
        let handle_bytes = vstd::bytes::u32_to_le_bytes(thread_handle);
        self.user_region[0x78] = handle_bytes[0];
        self.user_region[0x79] = handle_bytes[1];
        self.user_region[0x7A] = handle_bytes[2];
        self.user_region[0x7B] = handle_bytes[3];
        proof {
            vstd::bytes::lemma_auto_spec_u32_to_from_le_bytes();
            vstd::bytes::lemma_auto_spec_u64_to_from_le_bytes();
            assert(self.user_area().subrange(0x78, 0x7C) =~= spec_u32_to_le_bytes(thread_handle));
            let zeros = vstd::bytes::spec_u64_to_le_bytes(0u64);
            assert(zeros =~= seq![0u8, 0u8, 0u8, 0u8, 0u8, 0u8, 0u8, 0u8]) by {
                vstd::bytes::spec_u64_to_le_bytes_to_open(0u64);
                assert(0u64 & 0xff == 0 && (0u64 >> 8u64) & 0xff == 0) by (bit_vector);
                assert((0u64 >> 16u64) & 0xff == 0 && (0u64 >> 24u64) & 0xff == 0) by (bit_vector);
                assert((0u64 >> 32u64) & 0xff == 0 && (0u64 >> 40u64) & 0xff == 0) by (bit_vector);
                assert((0u64 >> 48u64) & 0xff == 0 && (0u64 >> 56u64) & 0xff == 0) by (bit_vector);
            }
            assert forall|k: int| 0 <= k < 14 implies #[trigger] self.user_area().subrange(8 * k, 8 * k + 8)
                =~= zeros by {}
            assert(self.slots_spec() =~= Seq::new(14, |k: int| 0u64));
        }
    }

    /// Sets the thread-local slot `k` to `value`; the other slots, the
    /// per-thread variables, the reserved area, the IPC buffer and the
    /// kernel's fields are untouched.
    pub fn set_slot(&mut self, k: usize, value: u64)
        requires
            k < NUM_TLS_SLOTS,
        ensures
            final(self).slots_spec() == old(self).slots_spec().update(k as int, value),
            final(self).user_area().subrange(0x70, 0x80) == old(self).user_area().subrange(0x70, 0x80),
            final(self).thread_handle_spec() == old(self).thread_handle_spec(),
            final(self).reserved_area() == old(self).reserved_area(),
            final(self).ipc() == old(self).ipc(),
            final(self).kernel() == old(self).kernel(),
    {
        let bytes = vstd::bytes::u64_to_le_bytes(value);
        let mut b: usize = 0;
        while b < 8
            invariant
                k < 14,
                b <= 8,
                bytes@ == vstd::bytes::spec_u64_to_le_bytes(value),
                bytes@.len() == 8,
                self.user_region@.len() == 0x80,
                forall|j: int| 0 <= j < 0x80 && !(8 * k <= j < 8 * k + b) ==> self.user_region@[j] == old(self).user_region@[j],
                forall|j: int| 0 <= j < b ==> self.user_region@[8 * k + j] == bytes@[j],
                self.reserved_area() == old(self).reserved_area(),
                self.ipc() == old(self).ipc(),
                self.kernel() == old(self).kernel(),
            decreases 8 - b,
        {
            self.user_region[8 * k + b] = bytes[b];
            b = b + 1;
        }
        proof {
            vstd::bytes::lemma_auto_spec_u64_to_from_le_bytes();
            let ua = self.user_area();
            let old_ua = old(self).user_area();
            assert(ua.subrange(8 * k as int, 8 * k + 8) =~= bytes@);
            assert forall|j: int| 0 <= j < 14 && j != k implies #[trigger] ua.subrange(8 * j, 8 * j + 8)
                =~= old_ua.subrange(8 * j, 8 * j + 8) by {}
            assert(self.slots_spec() =~= old(self).slots_spec().update(k as int, value));
            assert(ua.subrange(0x70, 0x80) =~= old_ua.subrange(0x70, 0x80));
            assert(ua.subrange(0x78, 0x7C) =~= old_ua.subrange(0x78, 0x7C));
        }
    }

    /// The thread-local slots.
    pub fn slots(&self) -> (r: Vec<u64>)
        ensures
            r@ == self.slots_spec(),
    {
        let mut out: Vec<u64> = Vec::new();
        let mut k: usize = 0;
        let ghost ua = self.user_area();
        while k < NUM_TLS_SLOTS
            invariant
                k <= 14,
                ua == self.user_area(),
                ua.len() == 0x80,
                out@.len() == k,
                forall|j: int| 0 <= j < k ==> out@[j] == self.slots_spec()[j],
            decreases 14 - k,
        {
            let bytes = vstd::slice::slice_subrange(self.user_region.as_slice(), 8 * k, 8 * k + 8);
            assert(bytes@ =~= ua.subrange(8 * k as int, 8 * k + 8));
            out.push(vstd::bytes::u64_from_le_bytes(bytes));
            k = k + 1;
        }
        assert(out@ =~= self.slots_spec());
        out
    }
}

/// The thread handle recorded by the per-thread variables of the calling
/// thread's region.
pub fn current_thread_handle(tls: &ThreadLocalRegion) -> (r: u32)
    ensures
        r == tls.thread_handle_spec(),
{
    tls.thread_handle()
}

/// Writes the bytes of a value shorter than the IPC buffer at the start of
/// the calling thread's IPC buffer.
pub fn write_ipc_buffer(tls: &mut ThreadLocalRegion, value: &[u8])
    requires
        value@.len() < 0x100,
    ensures
        final(tls).ipc() == value@ + old(tls).ipc().subrange(value@.len() as int, 0x100),
        final(tls).kernel() == old(tls).kernel(),
        final(tls).user_bytes() == old(tls).user_bytes(),
{
    tls.write_ipc_buffer(value)
}

/// Reads the first `len` bytes of the calling thread's IPC buffer.
pub fn read_ipc_buffer(tls: &ThreadLocalRegion, len: usize) -> (r: Vec<u8>)
    requires
        len <= 0x100,
    ensures
        r@ == tls.ipc().subrange(0, len as int),
{
    tls.read_ipc_buffer(len)
}

/// Reading back as many bytes of the IPC buffer as were written gives the
/// written bytes.
pub proof fn lemma_ipc_read_after_write(value: Seq<u8>, before: Seq<u8>)
    requires
        value.len() <= 0x100,
        before.len() == 0x100,
    ensures
        (value + before.subrange(value.len() as int, 0x100)).subrange(0, value.len() as int) == value,
{
    assert((value + before.subrange(value.len() as int, 0x100)).subrange(0, value.len() as int) =~= value);
}

/// After a thread's variables are set up, its thread handle reads back as
/// the one recorded, and writing the IPC buffer leaves it in place.
pub proof fn lemma_thread_handle_survives_ipc(before: ThreadLocalRegion, after: ThreadLocalRegion)
    requires
        after.user_bytes() == before.user_bytes(),
    ensures
        after.thread_handle_spec() == before.thread_handle_spec(),
        after.slots_spec() == before.slots_spec(),
{
    before.lemma_user_bytes();
    after.lemma_user_bytes();
    assert(after.user_area() =~= after.user_bytes().subrange(0x6C, 0xEC));
    assert(before.user_area() =~= before.user_bytes().subrange(0x6C, 0xEC));
}

/// Why a thread could not be created.
#[derive(Debug, Copy, Clone, PartialEq, Eq, Structural)]
pub enum ThreadCreationError {
    InvalidStackSize,
    InvalidStackAlignment,
    StackAllocationFailed(NxError),
    CreateThreadError(NxError),
}

/// The stack of a thread in a group: the checked stack size grown by the
/// context and rounded up to whole pages, and the offset of the context (the
/// stack top) inside it.
pub open spec fn group_stack_spec(stack: usize, stack_size: usize, context_size: usize) -> Result<(usize, usize), ThreadCreationError> {
    if stack_size % 4096 != 0 {
        Err(ThreadCreationError::InvalidStackSize)
    } else if stack % 4096 != 0 {
        Err(ThreadCreationError::InvalidStackAlignment)
    } else {
        let size = crate::virtmem::round_up_page(context_size + stack_size);
        Ok((size as usize, (size - context_size) as usize))
    }
}

/// Lays out the stack of a thread in a group, at `stack` with `stack_size`
/// bytes, whose context takes `context_size` bytes: the size must be a
/// multiple of the page size and the stack page aligned.
pub fn group_stack_layout(stack: usize, stack_size: usize, context_size: usize) -> (r: Result<(usize, usize), ThreadCreationError>)
    requires
        context_size + stack_size + 4095 <= usize::MAX,
    ensures
        r == group_stack_spec(stack, stack_size, context_size),
        r is Ok ==> r->Ok_0.0 % 4096 == 0 && r->Ok_0.0 >= context_size + stack_size && r->Ok_0.1 + context_size
            == r->Ok_0.0,
{
    if stack_size % crate::PAGE_SIZE != 0 {
        return Err(ThreadCreationError::InvalidStackSize);
    }
    if stack % crate::PAGE_SIZE != 0 {
        return Err(ThreadCreationError::InvalidStackAlignment);
    }
    let grown = context_size + stack_size + (crate::PAGE_SIZE - 1);
    let size = grown & !(crate::PAGE_SIZE - 1);
    assert(grown & !4095usize == grown - grown % 4096) by (bit_vector);
    Ok((size, size - context_size))
}

/// Why a wait with a time limit ended without the thread's result.
pub enum WaitTimeoutError<T> {
    /// The time ran out; the handle is given back to wait again.
    TimedOut(T),
    /// The kernel reported another error.
    Other(NxError),
}

/// Classifies the kernel's answer to a wait with a time limit: success gives
/// the handle back to collect the thread's result, the timeout error gives it
/// back inside `TimedOut`, and any other error is passed on.
pub fn wait_timeout_outcome<T>(result: NxResult<usize>, handle: T) -> (r: Result<T, WaitTimeoutError<T>>)
    ensures
        result is Ok ==> r == Ok::<T, WaitTimeoutError<T>>(handle),
        result is Err && result->Err_0@ == crate::result::error_bits(1, crate::result::svc::TIMED_OUT)
            ==> r == Err::<T, WaitTimeoutError<T>>(WaitTimeoutError::TimedOut(handle)),
        result is Err && result->Err_0@ != crate::result::error_bits(1, crate::result::svc::TIMED_OUT)
            ==> r == Err::<T, WaitTimeoutError<T>>(WaitTimeoutError::Other(result->Err_0)),
{
    match result {
        Ok(_) => Ok(handle),
        Err(e) => if crate::result::svc::is(e, crate::result::svc::TIMED_OUT) {
            Err(WaitTimeoutError::TimedOut(handle))
        } else {
            Err(WaitTimeoutError::Other(e))
        },
    }
}

/// The settings of a thread to be created by a thread group: the start
/// address of its stack, the stack size, its priority and processor core.
#[verifier::reject_recursive_types(F)]
#[verifier::reject_recursive_types(R)]
pub struct ThreadBuilder<F: FnOnce() -> R, R: Send> {
    stack: usize,
    stack_size: usize,
    priority: i32,
    core_id: i32,
    marker: PhantomData<F>,
}

/// The settings of a group thread builder, as plain values.
#[derive(Debug, Copy, Clone, PartialEq, Eq, Structural)]
pub struct GroupBuilderSettings {
    pub stack: usize,
    pub stack_size: usize,
    pub priority: i32,
    pub core_id: i32,
}

impl<F: FnOnce() -> R, R: Send> ThreadBuilder<F, R> {
    /// The builder's settings.
    pub closed spec fn settings(&self) -> GroupBuilderSettings {
        GroupBuilderSettings {
            stack: self.stack,
            stack_size: self.stack_size,
            priority: self.priority,
            core_id: self.core_id,
        }
    }

    /// Uses the stack at `ptr` of `size` bytes.
    pub fn with_stack(self, ptr: usize, size: usize) -> (r: Self)
        ensures
            r.settings() == (GroupBuilderSettings { stack: ptr, stack_size: size, ..self.settings() }),
    {
        ThreadBuilder { stack: ptr, stack_size: size, ..self }
    }

    /// Sets the thread's priority.
    pub fn with_priority(self, prio: i32) -> (r: Self)
        ensures
            r.settings() == (GroupBuilderSettings { priority: prio, ..self.settings() }),
    {
        ThreadBuilder { priority: prio, ..self }
    }

    /// Sets the processor core the thread runs on.
    pub fn with_core(self, core_id: i32) -> (r: Self)
        ensures
            r.settings() == (GroupBuilderSettings { core_id, ..self.settings() }),
    {
        ThreadBuilder { core_id, ..self }
    }
}

} // verus!
