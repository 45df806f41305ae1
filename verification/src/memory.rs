//! Heap sizing and the process-wide critical section.

use vstd::prelude::*;

verus! {

/// The heap is allocated in multiples of 2 MiB.
pub const HEAP_GRANULARITY: u64 = 0x20_0000;

/// The largest multiple of the heap granularity not above `x`.
pub open spec fn round_down_granularity(x: u64) -> int {
    x - x % 0x20_0000
}

/// The heap size requested at start-up: the free memory rounded down to the
/// heap granularity, or a single granule when that leaves nothing.
pub open spec fn heap_size_spec(total_size: u64, used_size: u64) -> int {
    let free = if total_size > used_size {
        round_down_granularity((total_size - used_size) as u64)
    } else {
        0
    };
    if free == 0 {
        0x20_0000
    } else {
        free
    }
}

/// Computes the size of the heap to request from the total and the used
/// memory of the process.
pub fn heap_size(total_size: u64, used_size: u64) -> (r: u64)
    ensures
        r == heap_size_spec(total_size, used_size),
        r > 0,
        r % 0x20_0000 == 0,
{
    let mut size = 0u64;
    if total_size > used_size {
        let free = total_size - used_size;
        size = free & !(HEAP_GRANULARITY - 1);
        assert(free & !0x1F_FFFFu64 == free - free % 0x20_0000) by (bit_vector);
    }
    if size == 0 {
        size = HEAP_GRANULARITY;
    }
    size
}

/// The requested heap never exceeds the free memory when at least one
/// granule is free, and it leaves less than one granule of it unused.
pub proof fn lemma_heap_size_bounds(total_size: u64, used_size: u64)
    requires
        total_size >= used_size + 0x20_0000,
    ensures
        heap_size_spec(total_size, used_size) <= total_size - used_size,
        total_size - used_size - heap_size_spec(total_size, used_size) < 0x20_0000,
{
}

/// State returned by acquiring the critical section when the lock was taken.
pub const LOCK_STATE_ACQUIRED: u8 = 0x0;

/// State returned by acquiring the critical section when the calling thread
/// already held the lock.
pub const LOCK_STATE_RECURSIVE: u8 = 0x1;

/// The state returned on entering the critical section.
pub open spec fn acquire_state_spec(locked_by_this_thread: bool) -> u8 {
    if locked_by_this_thread {
        LOCK_STATE_RECURSIVE
    } else {
        LOCK_STATE_ACQUIRED
    }
}

/// The state to return on entering the critical section: a thread that
/// already holds the lock enters recursively and does not lock again; any
/// other thread locks (the caller then takes the lock).
pub fn acquire_state(locked_by_this_thread: bool) -> (r: u8)
    ensures
        r == acquire_state_spec(locked_by_this_thread),
{
    if locked_by_this_thread {
        LOCK_STATE_RECURSIVE
    } else {
        LOCK_STATE_ACQUIRED
    }
}

/// Whether leaving the critical section with a state unlocks the lock.
pub open spec fn release_unlocks_spec(restore_state: u8) -> bool {
    restore_state == LOCK_STATE_ACQUIRED
}

/// Whether leaving the critical section with `restore_state` must unlock the lock.
pub fn release_unlocks(restore_state: u8) -> (r: bool)
    requires
        restore_state == LOCK_STATE_ACQUIRED || restore_state == LOCK_STATE_RECURSIVE,
    ensures
        r == release_unlocks_spec(restore_state),
{
    restore_state == LOCK_STATE_ACQUIRED
}

/// Entering the critical section always yields a state that leaving accepts,
/// and leaving unlocks exactly when entering took the lock: a recursive
/// entry leaves the outer holder's lock in place.
pub proof fn lemma_acquire_release_pairs(locked_by_this_thread: bool)
    ensures
        acquire_state_spec(locked_by_this_thread) == LOCK_STATE_ACQUIRED
            || acquire_state_spec(locked_by_this_thread) == LOCK_STATE_RECURSIVE,
        release_unlocks_spec(acquire_state_spec(locked_by_this_thread)) <==> !locked_by_this_thread,
{
}

} // verus!
