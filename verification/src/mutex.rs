//! The user-space mutex protocol.
//!
//! A mutex is a 32-bit word in memory: zero when it is free, otherwise the
//! handle of the owning thread, with bit 30 set when other threads wait on
//! the kernel for it. Threads update the word with the processor's exclusive
//! load and store instructions and ask the kernel to arbitrate when the
//! mutex is contended.
//!
//! The decisions of `lock`, `try_lock` and `unlock` are a state machine: the
//! caller starts an operation, performs the action that each step returns
//! (an exclusive load or store, a kernel call, ...) and feeds the outcome
//! back as the next event, until the machine reaches a final phase.

pub mod model;

use vstd::prelude::*;

verus! {

/// The bit of the mutex word that tells that threads are waiting.
pub const WAITER_MASK: u32 = 0x4000_0000;

/// Where an operation on the mutex stands.
#[derive(Debug, Copy, Clone, PartialEq, Eq, Structural)]
pub enum MutexPhase {
    /// `lock`: waiting for the value of an exclusive load.
    LockLoading,
    /// `lock`: waiting for the outcome of storing the thread's handle into the free word.
    LockStoringOwner,
    /// `lock`: waiting for the outcome of setting the waiter bit on the observed word.
    LockStoringWaiter { observed: u32 },
    /// `lock`: waiting for the kernel's arbitration of the lock.
    LockArbitrating,
    /// `lock`: the kernel reported an error, which is being reported as a break.
    LockReportingFailure,
    /// `lock`: waiting for the value of the exclusive load after arbitration.
    LockReloading,
    /// `lock`: the thread owns the mutex; the exclusive monitor is being cleared.
    LockClearing,
    /// `lock` has finished: the calling thread owns the mutex.
    Locked,
    /// `try_lock`: waiting for the value of an exclusive load.
    TryLoading,
    /// `try_lock`: waiting for the outcome of storing the thread's handle.
    TryStoring,
    /// `try_lock` has finished, acquiring the mutex or not.
    TryDone { acquired: bool },
    /// `unlock`: waiting for the value of an exclusive load.
    UnlockLoading,
    /// `unlock`: waiting for the outcome of storing zero into the word.
    UnlockStoring,
    /// `unlock`: waiting for the kernel to hand the mutex to a waiter.
    UnlockArbitrating,
    /// `unlock`: the kernel reported an error, which is being reported as a break.
    UnlockReportingFailure,
    /// `unlock` has finished.
    Unlocked,
}

/// The outcome of the last action, handed to the next step.
#[derive(Debug, Copy, Clone, PartialEq, Eq, Structural)]
pub enum MutexEvent {
    /// An exclusive load returned this value.
    Loaded(u32),
    /// An exclusive store succeeded (`true`) or failed.
    Stored(bool),
    /// A kernel arbitration call succeeded (`true`) or returned an error.
    Arbitrated(bool),
    /// An action without a result was performed.
    Completed,
}

/// What the caller must do next.
#[derive(Debug, Copy, Clone, PartialEq, Eq, Structural)]
pub enum MutexAction {
    /// Load the mutex word exclusively and report `Loaded`.
    LoadExclusive,
    /// Store this value into the mutex word exclusively and report `Stored`.
    StoreExclusive(u32),
    /// Ask the kernel to arbitrate the lock held by `owner`, writing the
    /// calling thread's handle when it is acquired, and report `Arbitrated`.
    ArbitrateLock { owner: u32 },
    /// Ask the kernel to hand the mutex to the next waiter and report `Arbitrated`.
    ArbitrateUnlock,
    /// Break with the assertion reason and report `Completed`.
    BreakAssert,
    /// Release the exclusive monitor and report `Completed`.
    ClearExclusive,
    /// The operation is over.
    Finish,
}

/// Whether a phase is final.
pub open spec fn is_final(phase: MutexPhase) -> bool {
    match phase {
        MutexPhase::Locked | MutexPhase::TryDone { .. } | MutexPhase::Unlocked => true,
        _ => false,
    }
}

/// Whether `event` is the kind of outcome that `phase` waits for.
pub open spec fn accepts(phase: MutexPhase, event: MutexEvent) -> bool {
    match phase {
        MutexPhase::LockLoading | MutexPhase::LockReloading | MutexPhase::TryLoading
        | MutexPhase::UnlockLoading => event is Loaded,
        MutexPhase::LockStoringOwner | MutexPhase::LockStoringWaiter { .. }
        | MutexPhase::TryStoring | MutexPhase::UnlockStoring => event is Stored,
        MutexPhase::LockArbitrating | MutexPhase::UnlockArbitrating => event is Arbitrated,
        MutexPhase::LockReportingFailure | MutexPhase::LockClearing
        | MutexPhase::UnlockReportingFailure => event is Completed,
        _ => false,
    }
}

/// How `lock` proceeds from an observed value of the word: a free word is
/// claimed by storing the handle; an owned word without the waiter bit gets
/// the bit; an owned word with the bit goes to the kernel, naming the owner.
pub open spec fn lock_decide(value: u32, handle: u32) -> (MutexPhase, MutexAction) {
    if value == 0 {
        (MutexPhase::LockStoringOwner, MutexAction::StoreExclusive(handle))
    } else if value & 0x4000_0000 == 0 {
        (MutexPhase::LockStoringWaiter { observed: value }, MutexAction::StoreExclusive(value | 0x4000_0000))
    } else {
        (MutexPhase::LockArbitrating, MutexAction::ArbitrateLock { owner: value & !0x4000_0000u32 })
    }
}

/// The transition table of the mutex operations for the thread with `handle`.
pub open spec fn step_spec(phase: MutexPhase, handle: u32, event: MutexEvent) -> (MutexPhase, MutexAction) {
    match (phase, event) {
        (MutexPhase::LockLoading, MutexEvent::Loaded(v)) => lock_decide(v, handle),
        (MutexPhase::LockStoringOwner, MutexEvent::Stored(ok)) => if ok {
            (MutexPhase::Locked, MutexAction::Finish)
        } else {
            (MutexPhase::LockLoading, MutexAction::LoadExclusive)
        },
        (MutexPhase::LockStoringWaiter { observed }, MutexEvent::Stored(ok)) => if ok {
            (MutexPhase::LockArbitrating, MutexAction::ArbitrateLock { owner: observed & !0x4000_0000u32 })
        } else {
            (MutexPhase::LockLoading, MutexAction::LoadExclusive)
        },
        (MutexPhase::LockArbitrating, MutexEvent::Arbitrated(ok)) => if ok {
            (MutexPhase::LockReloading, MutexAction::LoadExclusive)
        } else {
            (MutexPhase::LockReportingFailure, MutexAction::BreakAssert)
        },
        (MutexPhase::LockReportingFailure, MutexEvent::Completed) => (
            MutexPhase::LockReloading,
            MutexAction::LoadExclusive,
        ),
        (MutexPhase::LockReloading, MutexEvent::Loaded(v)) => if v & !0x4000_0000u32 == handle {
            (MutexPhase::LockClearing, MutexAction::ClearExclusive)
        } else {
            lock_decide(v, handle)
        },
        (MutexPhase::LockClearing, MutexEvent::Completed) => (MutexPhase::Locked, MutexAction::Finish),
        (MutexPhase::TryLoading, MutexEvent::Loaded(v)) => if v != 0 {
            (MutexPhase::TryDone { acquired: false }, MutexAction::Finish)
        } else {
            (MutexPhase::TryStoring, MutexAction::StoreExclusive(handle))
        },
        (MutexPhase::TryStoring, MutexEvent::Stored(ok)) => if ok {
            (MutexPhase::TryDone { acquired: true }, MutexAction::Finish)
        } else {
            (MutexPhase::TryLoading, MutexAction::LoadExclusive)
        },
        (MutexPhase::UnlockLoading, MutexEvent::Loaded(v)) => if v == handle {
            (MutexPhase::UnlockStoring, MutexAction::StoreExclusive(0))
        } else if v & 0x4000_0000 != 0 {
            (MutexPhase::UnlockArbitrating, MutexAction::ArbitrateUnlock)
        } else {
            (MutexPhase::Unlocked, MutexAction::Finish)
        },
        (MutexPhase::UnlockStoring, MutexEvent::Stored(ok)) => if ok {
            (MutexPhase::Unlocked, MutexAction::Finish)
        } else {
            (MutexPhase::UnlockLoading, MutexAction::LoadExclusive)
        },
        (MutexPhase::UnlockArbitrating, MutexEvent::Arbitrated(ok)) => if ok {
            (MutexPhase::Unlocked, MutexAction::Finish)
        } else {
            (MutexPhase::UnlockReportingFailure, MutexAction::BreakAssert)
        },
        (MutexPhase::UnlockReportingFailure, MutexEvent::Completed) => (
            MutexPhase::Unlocked,
            MutexAction::Finish,
        ),
        _ => (phase, MutexAction::Finish),
    }
}

/// Whether the mutex word names the thread with `handle` as its owner,
/// whether other threads wait or not.
pub fn is_owned_by(word: u32, handle: u32) -> (r: bool)
    ensures
        r <==> word & !0x4000_0000u32 == handle,
{
    word & !WAITER_MASK == handle
}

/// Starts locking the mutex: the first action is an exclusive load.
pub fn lock_start() -> (r: (MutexPhase, MutexAction))
    ensures
        r == (MutexPhase::LockLoading, MutexAction::LoadExclusive),
{
    (MutexPhase::LockLoading, MutexAction::LoadExclusive)
}

/// Starts an attempt to lock the mutex without the kernel.
pub fn try_lock_start() -> (r: (MutexPhase, MutexAction))
    ensures
        r == (MutexPhase::TryLoading, MutexAction::LoadExclusive),
{
    (MutexPhase::TryLoading, MutexAction::LoadExclusive)
}

/// Starts unlocking the mutex.
pub fn unlock_start() -> (r: (MutexPhase, MutexAction))
    ensures
        r == (MutexPhase::UnlockLoading, MutexAction::LoadExclusive),
{
    (MutexPhase::UnlockLoading, MutexAction::LoadExclusive)
}

fn lock_decide_exec(value: u32, handle: u32) -> (r: (MutexPhase, MutexAction))
    ensures
        r == lock_decide(value, handle),
{
    if value == 0 {
        (MutexPhase::LockStoringOwner, MutexAction::StoreExclusive(handle))
    } else if value & WAITER_MASK == 0 {
        (MutexPhase::LockStoringWaiter { observed: value }, MutexAction::StoreExclusive(value | WAITER_MASK))
    } else {
        (MutexPhase::LockArbitrating, MutexAction::ArbitrateLock { owner: value & !WAITER_MASK })
    }
}

/// Advances an operation of the thread with `handle` by one step, from the
/// outcome of the last action to the next phase and action.
pub fn step(phase: MutexPhase, handle: u32, event: MutexEvent) -> (r: (MutexPhase, MutexAction))
    requires
        accepts(phase, event),
    ensures
        r == step_spec(phase, handle, event),
{
    match (phase, event) {
        (MutexPhase::LockLoading, MutexEvent::Loaded(v)) => lock_decide_exec(v, handle),
        (MutexPhase::LockStoringOwner, MutexEvent::Stored(ok)) => if ok {
            (MutexPhase::Locked, MutexAction::Finish)
        } else {
            (MutexPhase::LockLoading, MutexAction::LoadExclusive)
        },
        (MutexPhase::LockStoringWaiter { observed }, MutexEvent::Stored(ok)) => if ok {
            (MutexPhase::LockArbitrating, MutexAction::ArbitrateLock { owner: observed & !WAITER_MASK })
        } else {
            (MutexPhase::LockLoading, MutexAction::LoadExclusive)
        },
        (MutexPhase::LockArbitrating, MutexEvent::Arbitrated(ok)) => if ok {
            (MutexPhase::LockReloading, MutexAction::LoadExclusive)
        } else {
            (MutexPhase::LockReportingFailure, MutexAction::BreakAssert)
        },
        (MutexPhase::LockReportingFailure, MutexEvent::Completed) => (
            MutexPhase::LockReloading,
            MutexAction::LoadExclusive,
        ),
        (MutexPhase::LockReloading, MutexEvent::Loaded(v)) => if v & !WAITER_MASK == handle {
            (MutexPhase::LockClearing, MutexAction::ClearExclusive)
        } else {
            lock_decide_exec(v, handle)
        },
        (MutexPhase::LockClearing, MutexEvent::Completed) => (MutexPhase::Locked, MutexAction::Finish),
        (MutexPhase::TryLoading, MutexEvent::Loaded(v)) => if v != 0 {
            (MutexPhase::TryDone { acquired: false }, MutexAction::Finish)
        } else {
            (MutexPhase::TryStoring, MutexAction::StoreExclusive(handle))
        },
        (MutexPhase::TryStoring, MutexEvent::Stored(ok)) => if ok {
            (MutexPhase::TryDone { acquired: true }, MutexAction::Finish)
        } else {
            (MutexPhase::TryLoading, MutexAction::LoadExclusive)
        },
        (MutexPhase::UnlockLoading, MutexEvent::Loaded(v)) => if v == handle {
            (MutexPhase::UnlockStoring, MutexAction::StoreExclusive(0))
        } else if v & WAITER_MASK != 0 {
            (MutexPhase::UnlockArbitrating, MutexAction::ArbitrateUnlock)
        } else {
            (MutexPhase::Unlocked, MutexAction::Finish)
        },
        (MutexPhase::UnlockStoring, MutexEvent::Stored(ok)) => if ok {
            (MutexPhase::Unlocked, MutexAction::Finish)
        } else {
            (MutexPhase::UnlockLoading, MutexAction::LoadExclusive)
        },
        (MutexPhase::UnlockArbitrating, MutexEvent::Arbitrated(ok)) => if ok {
            (MutexPhase::Unlocked, MutexAction::Finish)
        } else {
            (MutexPhase::UnlockReportingFailure, MutexAction::BreakAssert)
        },
        (MutexPhase::UnlockReportingFailure, MutexEvent::Completed) => (
            MutexPhase::Unlocked,
            MutexAction::Finish,
        ),
        _ => (phase, MutexAction::Finish),
    }
}

/// `lock` finishes only when the calling thread owns the mutex: either its
/// exclusive store of its handle into a word it had seen free succeeded, or
/// the word it loaded after the kernel's arbitration names it as the owner.
pub proof fn lemma_lock_finishes_owning(phase: MutexPhase, handle: u32, event: MutexEvent)
    requires
        accepts(phase, event),
        !is_final(phase),
    ensures
        step_spec(phase, handle, event).0 == MutexPhase::Locked ==> (phase
            == MutexPhase::LockStoringOwner && event == MutexEvent::Stored(true)) || (phase
            == MutexPhase::LockClearing && event == MutexEvent::Completed),
        step_spec(phase, handle, event).0 == MutexPhase::LockClearing ==> phase
            == MutexPhase::LockReloading && event->Loaded_0 & !0x4000_0000u32 == handle,
        step_spec(phase, handle, event).0 == MutexPhase::LockStoringOwner ==> event
            == MutexEvent::Loaded(0),
{
}

/// Every value that `lock` stores is the thread's handle into a word it saw
/// free, or the observed owner's word with the waiter bit added; and the
/// kernel is always asked to arbitrate for the observed owner, never for a
/// free word.
pub proof fn lemma_lock_writes(phase: MutexPhase, handle: u32, v: u32)
    requires
        phase == MutexPhase::LockLoading || phase == MutexPhase::LockReloading,
        handle != 0,
        handle & 0x4000_0000 == 0,
    ensures
        ({
            let (next, action) = step_spec(phase, handle, MutexEvent::Loaded(v));
            &&& action == MutexAction::StoreExclusive(handle) ==> v == 0
            &&& (action is StoreExclusive && action->StoreExclusive_0 != handle) ==> v != 0 && v
                & 0x4000_0000 == 0 && action->StoreExclusive_0 == v | 0x4000_0000u32
            &&& action is ArbitrateLock ==> v != 0 && v & 0x4000_0000 != 0
                && action->owner == v & !0x4000_0000u32
        }),
{
    assert(v == 0 ==> v & 0x4000_0000 == 0) by (bit_vector);
    assert(v != 0 && v & 0x4000_0000 == 0 ==> v | 0x4000_0000u32 != handle) by (bit_vector)
        requires
            handle & 0x4000_0000 == 0,
    ;
}

/// On a free word that no other thread touches, `lock` claims the word with
/// the thread's handle without the kernel, and `unlock` then returns the word
/// to free: unlocking undoes locking.
pub proof fn lemma_uncontended_lock_unlock(handle: u32)
    requires
        handle != 0,
    ensures
        ({
            // lock: load sees the free word, the store of the handle succeeds
            let (p1, a1) = step_spec(MutexPhase::LockLoading, handle, MutexEvent::Loaded(0));
            let (p2, a2) = step_spec(p1, handle, MutexEvent::Stored(true));
            // unlock: load sees the handle, the store of zero succeeds
            let (p3, a3) = step_spec(MutexPhase::UnlockLoading, handle, MutexEvent::Loaded(handle));
            let (p4, a4) = step_spec(p3, handle, MutexEvent::Stored(true));
            &&& a1 == MutexAction::StoreExclusive(handle)
            &&& p2 == MutexPhase::Locked && a2 == MutexAction::Finish
            &&& a3 == MutexAction::StoreExclusive(0)
            &&& p4 == MutexPhase::Unlocked && a4 == MutexAction::Finish
        }),
{
}

/// `try_lock` is the path of `lock` that needs no kernel: on a free word both
/// store the thread's handle, and a successful store finishes both with the
/// mutex acquired.
pub proof fn lemma_try_lock_is_lock_fast_path(handle: u32)
    ensures
        step_spec(MutexPhase::TryLoading, handle, MutexEvent::Loaded(0)).1 == step_spec(
            MutexPhase::LockLoading,
            handle,
            MutexEvent::Loaded(0),
        ).1,
        step_spec(MutexPhase::TryStoring, handle, MutexEvent::Stored(true)).0 == (MutexPhase::TryDone { acquired: true }),
        step_spec(MutexPhase::LockStoringOwner, handle, MutexEvent::Stored(true)).0 == MutexPhase::Locked,
{
}

/// `try_lock` never writes a word that it sees in use: it then finishes at
/// once without acquiring the mutex.
pub proof fn lemma_try_lock_busy(handle: u32, v: u32)
    requires
        v != 0,
    ensures
        step_spec(MutexPhase::TryLoading, handle, MutexEvent::Loaded(v)) == (
            MutexPhase::TryDone { acquired: false },
            MutexAction::Finish,
        ),
{
}

/// Every step of an operation that has not finished is defined: the phase
/// that a step returns either is final or waits for one kind of event.
pub proof fn lemma_step_progress(phase: MutexPhase, handle: u32, event: MutexEvent)
    requires
        accepts(phase, event),
    ensures
        ({
            let (next, action) = step_spec(phase, handle, event);
            &&& is_final(next) <==> action == MutexAction::Finish
            &&& action == MutexAction::LoadExclusive ==> accepts(next, MutexEvent::Loaded(0))
            &&& action is StoreExclusive ==> accepts(next, MutexEvent::Stored(true))
            &&& (action is ArbitrateLock || action == MutexAction::ArbitrateUnlock) ==> accepts(
                next,
                MutexEvent::Arbitrated(true),
            )
            &&& (action == MutexAction::BreakAssert || action == MutexAction::ClearExclusive)
                ==> accepts(next, MutexEvent::Completed)
        }),
{
}

/// After the kernel's arbitration, a reloaded word whose owner part names
/// the calling thread means the thread owns the mutex, whether other
/// threads wait or not: `lock` clears the exclusive monitor and finishes,
/// and never stores into the word or asks the kernel to wait on itself.
pub proof fn lemma_reload_owned_finishes(handle: u32, v: u32)
    requires
        v & !0x4000_0000u32 == handle,
    ensures
        step_spec(MutexPhase::LockReloading, handle, MutexEvent::Loaded(v)) == (
            MutexPhase::LockClearing,
            MutexAction::ClearExclusive,
        ),
        step_spec(MutexPhase::LockClearing, handle, MutexEvent::Completed) == (MutexPhase::Locked, MutexAction::Finish),
{
}

/// `unlock` finishes only once the word no longer names the calling thread
/// alone: its store of zero succeeded, the kernel handed the mutex on (or
/// its failure was reported), or the loaded word was not the thread's and
/// had no waiter. A failed store of zero goes back to reloading the word.
pub proof fn lemma_unlock_finishes_released(phase: MutexPhase, handle: u32, event: MutexEvent)
    requires
        accepts(phase, event),
        !is_final(phase),
    ensures
        step_spec(phase, handle, event).0 == MutexPhase::Unlocked ==> (phase == MutexPhase::UnlockStoring && event
            == MutexEvent::Stored(true)) || (phase == MutexPhase::UnlockArbitrating && event is Arbitrated
            && event->Arbitrated_0) || phase == MutexPhase::UnlockReportingFailure || (phase
            == MutexPhase::UnlockLoading && event->Loaded_0 != handle && event->Loaded_0 & 0x4000_0000 == 0),
        step_spec(MutexPhase::UnlockStoring, handle, MutexEvent::Stored(false)) == (
            MutexPhase::UnlockLoading,
            MutexAction::LoadExclusive,
        ),
        step_spec(MutexPhase::UnlockLoading, handle, MutexEvent::Loaded(handle)) == (
            MutexPhase::UnlockStoring,
            MutexAction::StoreExclusive(0),
        ),
{
}

} // verus!
