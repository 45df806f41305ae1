//! Values exchanged with the kernel's supervisor calls.

pub mod info;

use vstd::prelude::*;

verus! {

/// Information the kernel reports about a range of memory.
#[derive(Debug, Copy, Clone)]
pub struct MemoryInfo {
    pub base_address: u64,
    pub size: u64,
    pub memory_type: u32,
    pub memory_attr: u32,
    pub memory_perm: u32,
    pub ipc_ref_count: u32,
    pub device_ref_count: u32,
}

/// The answer to a memory query: the range information and its page information.
#[derive(Debug, Copy, Clone)]
pub struct MemoryQuery {
    pub info: MemoryInfo,
    pub page_info: u32,
}

/// The bit of a break reason that marks it as a notification.
pub const NOTIFICATION_MASK: u32 = 0x8000_0000;

/// The reason handed to the kernel when the process breaks.
#[derive(Copy, Clone, PartialEq, Eq, Structural)]
pub struct BreakReason {
    raw: u32,
}

impl View for BreakReason {
    type V = u32;

    closed spec fn view(&self) -> u32 {
        self.raw
    }
}

impl BreakReason {
    pub const PANIC: u32 = 0;
    pub const ASSERT: u32 = 1;
    pub const USER: u32 = 2;
    pub const PRE_LOAD_DLL: u32 = 3;
    pub const POST_LOAD_DLL: u32 = 4;
    pub const PRE_UNLOAD_DLL: u32 = 5;
    pub const POST_UNLOAD_DLL: u32 = 6;
    pub const CPP_EXCEPTION: u32 = 7;

    /// The break reason with the given raw value (one of the constants of this type).
    pub fn new(raw: u32) -> (r: Self)
        ensures
            r@ == raw,
    {
        BreakReason { raw }
    }

    /// The raw value handed to the kernel.
    pub fn into_inner(self) -> (r: u32)
        ensures
            r == self@,
    {
        self.raw
    }

    /// The same reason, marked as a notification.
    pub fn as_notification(self) -> (r: Self)
        ensures
            r@ == self@ | 0x8000_0000u32,
    {
        BreakReason { raw: self.raw | NOTIFICATION_MASK }
    }

    /// Whether this reason is marked as a notification.
    pub fn is_notification(&self) -> (r: bool)
        ensures
            r <==> self@ & 0x8000_0000u32 != 0,
    {
        self.raw & NOTIFICATION_MASK != 0
    }
}

/// Marking a reason as a notification makes it one, keeps its other bits,
/// and marking it twice is the same as marking it once.
pub proof fn lemma_notification(raw: u32)
    ensures
        (raw | 0x8000_0000u32) & 0x8000_0000u32 != 0,
        (raw | 0x8000_0000u32) & 0x7FFF_FFFFu32 == raw & 0x7FFF_FFFFu32,
        (raw | 0x8000_0000u32) | 0x8000_0000u32 == raw | 0x8000_0000u32,
{
    assert((raw | 0x8000_0000u32) & 0x8000_0000u32 != 0) by (bit_vector);
    assert((raw | 0x8000_0000u32) & 0x7FFF_FFFFu32 == raw & 0x7FFF_FFFFu32) by (bit_vector);
    assert((raw | 0x8000_0000u32) | 0x8000_0000u32 == raw | 0x8000_0000u32) by (bit_vector);
}

/// The timeout handed to the kernel's wait call: the given number of
/// nanoseconds, or `u64::MAX` (wait forever) when there is no limit.
pub fn wait_timeout_value(timeout_ns: Option<u64>) -> (r: u64)
    ensures
        timeout_ns is None ==> r == u64::MAX,
        timeout_ns is Some ==> r == timeout_ns->0,
{
    match timeout_ns {
        Some(n) => n,
        None => u64::MAX,
    }
}

/// How the calling thread gives up the processor.
#[derive(Debug, Copy, Clone, PartialEq, Eq, Structural)]
pub enum YieldType {
    NoCoreMigration,
    WithCoreMigration,
    AnyThread,
}

impl YieldType {
    /// The value handed to the kernel's sleep call to request this kind of yield.
    pub fn as_sleep_value(self) -> (r: u64)
        ensures
            self == YieldType::NoCoreMigration ==> r == 0,
            self == YieldType::WithCoreMigration ==> r == u64::MAX,
            self == YieldType::AnyThread ==> r == u64::MAX - 1,
    {
        match self {
            YieldType::NoCoreMigration => 0,
            YieldType::WithCoreMigration => u64::MAX,
            YieldType::AnyThread => u64::MAX - 1,
        }
    }
}

impl Default for YieldType {
    fn default() -> (r: Self)
        ensures
            r == YieldType::NoCoreMigration,
    {
        YieldType::NoCoreMigration
    }
}

/// Whether a thread may run.
#[derive(Debug, Copy, Clone, PartialEq, Eq, Structural)]
pub enum ThreadActivity {
    Runnable,
    Paused,
}

impl ThreadActivity {
    /// The value handed to the kernel for this activity.
    pub fn as_raw(self) -> (r: u32)
        ensures
            self == ThreadActivity::Runnable ==> r == 0,
            self == ThreadActivity::Paused ==> r == 1,
    {
        match self {
            ThreadActivity::Runnable => 0,
            ThreadActivity::Paused => 1,
        }
    }
}

} // verus!
