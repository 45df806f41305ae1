//! A model of threads sharing one mutex, and the proof that the protocol of
//! `step` keeps them mutually excluded.
//!
//! Each thread runs the operations of the protocol, one atomic action at a
//! time, in any interleaving. Exclusive loads arm the thread's monitor; an
//! exclusive store succeeds only while the monitor is armed, and any write
//! to the word disarms every monitor. The kernel's arbitration either fails
//! without effect or behaves as Horizon does: a thread asking to wait for
//! `owner` sleeps when the word is `owner` with the waiter bit, and returns
//! at once otherwise; unlocking through the kernel hands the word to one
//! sleeping thread (keeping the waiter bit while others still sleep), or
//! frees it when none sleeps. A thread unlocks only a mutex it holds.

use vstd::prelude::*;
use super::{step_spec, is_final, MutexAction, MutexEvent, MutexPhase};

verus! {

/// A thread in the model: its handle, where its operation stands and its
/// next action, its exclusive monitor (the value it loaded, while armed),
/// whether it sleeps in the kernel, and whether the kernel has handed it the
/// mutex while it slept.
pub struct ThreadModel {
    pub handle: u32,
    pub phase: MutexPhase,
    pub action: MutexAction,
    pub monitor: Option<u32>,
    pub waiting: bool,
    pub granted: bool,
}

/// The mutex word and the threads.
pub struct SystemModel {
    pub word: u32,
    pub threads: Seq<ThreadModel>,
}

/// The kernel's answer to an arbitration call.
pub enum KernelChoice {
    /// The call fails without effect.
    Fail,
    /// The call succeeds; an unlock with no sleeping thread frees the word.
    Succeed,
    /// An unlock hands the mutex to the sleeping thread with this index.
    Wake(int),
}

/// An operation a thread starts.
pub enum Operation {
    Lock,
    TryLock,
    Unlock,
}

/// The owner named by a mutex word.
pub open spec fn owner(word: u32) -> u32 {
    word & !0x4000_0000u32
}

/// Whether a thread holds the mutex: from the moment its operation claims
/// or is handed the mutex until its unlock gives it up.
pub open spec fn in_cs(t: ThreadModel) -> bool {
    t.granted || match t.phase {
        MutexPhase::LockClearing | MutexPhase::Locked | MutexPhase::TryDone { acquired: true }
        | MutexPhase::UnlockLoading | MutexPhase::UnlockStoring | MutexPhase::UnlockArbitrating => true,
        _ => false,
    }
}

/// The action that a thread's phase calls for.
pub open spec fn action_ok(t: ThreadModel) -> bool {
    match t.phase {
        MutexPhase::LockLoading | MutexPhase::LockReloading | MutexPhase::TryLoading
        | MutexPhase::UnlockLoading => t.action == MutexAction::LoadExclusive,
        MutexPhase::LockStoringOwner | MutexPhase::TryStoring => t.action == MutexAction::StoreExclusive(t.handle),
        MutexPhase::LockStoringWaiter { observed } => t.action == MutexAction::StoreExclusive(observed | 0x4000_0000u32),
        MutexPhase::LockArbitrating => t.action is ArbitrateLock,
        MutexPhase::UnlockStoring => t.action == MutexAction::StoreExclusive(0),
        MutexPhase::UnlockArbitrating => t.action == MutexAction::ArbitrateUnlock,
        MutexPhase::LockReportingFailure | MutexPhase::UnlockReportingFailure => t.action == MutexAction::BreakAssert,
        MutexPhase::LockClearing => t.action == MutexAction::ClearExclusive,
        _ => t.action == MutexAction::Finish,
    }
}

/// What an armed monitor records, given the thread's phase: the word it
/// loaded, which decided the store the thread is about to make.
pub open spec fn monitor_ok(t: ThreadModel, word: u32) -> bool {
    match t.monitor {
        None => true,
        Some(m) => m == word && match t.phase {
            MutexPhase::LockStoringOwner | MutexPhase::TryStoring => m == 0,
            MutexPhase::LockStoringWaiter { observed } => m == observed,
            MutexPhase::UnlockStoring => m == t.handle,
            _ => true,
        },
    }
}

/// Sleeping and handed-over threads are inside a `lock` arbitration.
pub open spec fn sleep_ok(t: ThreadModel) -> bool {
    &&& t.waiting ==> t.phase == MutexPhase::LockArbitrating && !t.granted
    &&& t.granted ==> (t.phase == MutexPhase::LockArbitrating || t.phase == MutexPhase::LockReloading) && !t.waiting
}

/// Distinct, non-zero handles without the waiter bit.
pub open spec fn handles_ok(ts: Seq<ThreadModel>) -> bool {
    &&& forall|i: int| 0 <= i < ts.len() ==> (#[trigger] ts[i]).handle != 0 && ts[i].handle & 0x4000_0000 == 0
    &&& forall|i: int, j: int| 0 <= i < ts.len() && 0 <= j < ts.len() && i != j ==> #[trigger] ts[i].handle != #[trigger] ts[j].handle
}

/// The invariant of the model: every thread that holds the mutex is the
/// owner the word names.
pub open spec fn inv(s: SystemModel) -> bool {
    &&& handles_ok(s.threads)
    &&& forall|i: int| 0 <= i < s.threads.len() ==> action_ok(#[trigger] s.threads[i])
    &&& forall|i: int| 0 <= i < s.threads.len() ==> monitor_ok(#[trigger] s.threads[i], s.word)
    &&& forall|i: int| 0 <= i < s.threads.len() ==> sleep_ok(#[trigger] s.threads[i])
    &&& forall|i: int| 0 <= i < s.threads.len() ==> in_cs(#[trigger] s.threads[i]) ==> owner(s.word) == s.threads[i].handle
}

/// The threads with their monitors disarmed, after a write to the word.
pub open spec fn clear_monitors(ts: Seq<ThreadModel>) -> Seq<ThreadModel> {
    Seq::new(ts.len(), |k: int| ThreadModel { monitor: None, ..ts[k] })
}

/// A thread after its operation takes in `event`.
pub open spec fn advance(t: ThreadModel, event: MutexEvent) -> ThreadModel {
    let (phase, action) = step_spec(t.phase, t.handle, event);
    ThreadModel {
        phase,
        action,
        granted: if t.phase == MutexPhase::LockReloading { false } else { t.granted },
        ..t
    }
}

/// Whether any thread but `n` sleeps in the kernel.
pub open spec fn others_waiting(ts: Seq<ThreadModel>, n: int) -> bool {
    exists|m: int| 0 <= m < ts.len() && m != n && (#[trigger] ts[m]).waiting
}

/// Whether thread `i` can take its next action, with `choice` as the kernel's answer.
pub open spec fn can_perform(s: SystemModel, i: int, choice: KernelChoice) -> bool {
    &&& 0 <= i < s.threads.len()
    &&& !s.threads[i].waiting
    &&& !is_final(s.threads[i].phase)
    &&& (s.threads[i].action == MutexAction::ArbitrateUnlock && !(s.threads[i].granted)) ==> match choice {
        KernelChoice::Succeed => forall|m: int| 0 <= m < s.threads.len() ==> !(#[trigger] s.threads[m]).waiting,
        KernelChoice::Wake(n) => 0 <= n < s.threads.len() && s.threads[n].waiting,
        KernelChoice::Fail => true,
    }
}

/// The system after thread `i` takes its next action atomically.
pub open spec fn perform(s: SystemModel, i: int, choice: KernelChoice) -> SystemModel {
    let t = s.threads[i];
    let w = s.word;
    if t.granted && t.phase == MutexPhase::LockArbitrating {
        SystemModel { threads: s.threads.update(i, advance(t, MutexEvent::Arbitrated(true))), ..s }
    } else {
        match t.action {
            MutexAction::LoadExclusive => SystemModel {
                threads: s.threads.update(i, advance(ThreadModel { monitor: Some(w), ..t }, MutexEvent::Loaded(w))),
                ..s
            },
            MutexAction::StoreExclusive(v) => if t.monitor is Some {
                SystemModel {
                    word: v,
                    threads: clear_monitors(s.threads).update(
                        i,
                        advance(ThreadModel { monitor: None, ..t }, MutexEvent::Stored(true)),
                    ),
                }
            } else {
                SystemModel { threads: s.threads.update(i, advance(t, MutexEvent::Stored(false))), ..s }
            },
            MutexAction::ArbitrateLock { owner } => match choice {
                KernelChoice::Fail => SystemModel {
                    threads: s.threads.update(i, advance(t, MutexEvent::Arbitrated(false))),
                    ..s
                },
                _ => if w == owner | 0x4000_0000u32 {
                    SystemModel { threads: s.threads.update(i, ThreadModel { waiting: true, ..t }), ..s }
                } else {
                    SystemModel { threads: s.threads.update(i, advance(t, MutexEvent::Arbitrated(true))), ..s }
                },
            },
            MutexAction::ArbitrateUnlock => match choice {
                KernelChoice::Fail => SystemModel {
                    threads: s.threads.update(i, advance(t, MutexEvent::Arbitrated(false))),
                    ..s
                },
                KernelChoice::Succeed => SystemModel {
                    word: 0,
                    threads: clear_monitors(s.threads).update(
                        i,
                        advance(ThreadModel { monitor: None, ..t }, MutexEvent::Arbitrated(true)),
                    ),
                },
                KernelChoice::Wake(n) => {
                    let next = s.threads[n];
                    let word = if others_waiting(s.threads, n) {
                        next.handle | 0x4000_0000u32
                    } else {
                        next.handle
                    };
                    SystemModel {
                        word,
                        threads: clear_monitors(s.threads).update(
                            n,
                            ThreadModel { waiting: false, granted: true, monitor: None, ..next },
                        ).update(i, advance(ThreadModel { monitor: None, ..t }, MutexEvent::Arbitrated(true))),
                    }
                },
            },
            MutexAction::BreakAssert => SystemModel {
                threads: s.threads.update(i, advance(t, MutexEvent::Completed)),
                ..s
            },
            MutexAction::ClearExclusive => SystemModel {
                threads: s.threads.update(i, advance(ThreadModel { monitor: None, ..t }, MutexEvent::Completed)),
                ..s
            },
            MutexAction::Finish => s,
        }
    }
}

/// Whether thread `i` can start `op`: its last operation is over, it
/// unlocks only a mutex it holds, and it locks only one it does not hold.
pub open spec fn can_start(s: SystemModel, i: int, op: Operation) -> bool {
    &&& 0 <= i < s.threads.len()
    &&& !s.threads[i].granted
    &&& match op {
        Operation::Unlock => s.threads[i].phase == MutexPhase::Locked || s.threads[i].phase == (MutexPhase::TryDone { acquired: true }),
        _ => s.threads[i].phase == MutexPhase::Unlocked || s.threads[i].phase == (MutexPhase::TryDone { acquired: false }),
    }
}

/// The system after thread `i` starts `op`.
pub open spec fn start(s: SystemModel, i: int, op: Operation) -> SystemModel {
    let t = s.threads[i];
    let (phase, action) = match op {
        Operation::Lock => (MutexPhase::LockLoading, MutexAction::LoadExclusive),
        Operation::TryLock => (MutexPhase::TryLoading, MutexAction::LoadExclusive),
        Operation::Unlock => (MutexPhase::UnlockLoading, MutexAction::LoadExclusive),
    };
    SystemModel { threads: s.threads.update(i, ThreadModel { phase, action, ..t }), ..s }
}

/// The system before any operation: a free word, and idle threads with the given handles.
pub open spec fn initial(handles: Seq<u32>) -> SystemModel {
    SystemModel {
        word: 0,
        threads: Seq::new(handles.len(), |k: int| ThreadModel {
            handle: handles[k],
            phase: MutexPhase::Unlocked,
            action: MutexAction::Finish,
            monitor: None,
            waiting: false,
            granted: false,
        }),
    }
}

proof fn lemma_owner_bits(h: u32, w: u32)
    requires
        h & 0x4000_0000 == 0,
    ensures
        (h & !0x4000_0000u32) == h,
        ((h | 0x4000_0000u32) & !0x4000_0000u32) == h,
        ((w | 0x4000_0000u32) & !0x4000_0000u32) == (w & !0x4000_0000u32),
        (0u32 & !0x4000_0000u32) == 0,
{
    assert((h & !0x4000_0000u32) == h) by (bit_vector)
        requires
            h & 0x4000_0000 == 0,
    ;
    assert(((h | 0x4000_0000u32) & !0x4000_0000u32) == h) by (bit_vector)
        requires
            h & 0x4000_0000 == 0,
    ;
    assert(((w | 0x4000_0000u32) & !0x4000_0000u32) == (w & !0x4000_0000u32)) by (bit_vector);
    assert((0u32 & !0x4000_0000u32) == 0) by (bit_vector);
}

/// The model starts in a state of the invariant.
pub proof fn lemma_initial_inv(handles: Seq<u32>)
    requires
        forall|i: int| 0 <= i < handles.len() ==> (#[trigger] handles[i]) != 0 && handles[i] & 0x4000_0000 == 0,
        forall|i: int, j: int| 0 <= i < handles.len() && 0 <= j < handles.len() && i != j ==> #[trigger] handles[i] != #[trigger] handles[j],
    ensures
        inv(initial(handles)),
{
    let s = initial(handles);
    assert forall|i: int, j: int| 0 <= i < s.threads.len() && 0 <= j < s.threads.len() && i != j implies #[trigger] s.threads[i].handle != #[trigger] s.threads[j].handle by {
        assert(s.threads[i].handle == handles[i]);
        assert(s.threads[j].handle == handles[j]);
    }
}

/// Holding the mutex is exclusive: in every state of the invariant, no two
/// threads hold it at once.
pub proof fn lemma_mutual_exclusion(s: SystemModel, i: int, j: int)
    requires
        inv(s),
        0 <= i < s.threads.len(),
        0 <= j < s.threads.len(),
        i != j,
    ensures
        !(in_cs(s.threads[i]) && in_cs(s.threads[j])),
{
    assert(s.threads[i].handle != s.threads[j].handle);
}

/// Starting an operation keeps the invariant.
pub proof fn lemma_start_keeps_inv(s: SystemModel, i: int, op: Operation)
    requires
        inv(s),
        can_start(s, i, op),
    ensures
        inv(start(s, i, op)),
{
    let s2 = start(s, i, op);
    assert forall|k: int| 0 <= k < s2.threads.len() && in_cs(#[trigger] s2.threads[k]) implies owner(s2.word) == s2.threads[k].handle by {
        if k == i {
            assert(in_cs(s.threads[i]) || !in_cs(s2.threads[i]));
        }
    }
    assert forall|a: int, b: int| 0 <= a < s2.threads.len() && 0 <= b < s2.threads.len() && a != b implies #[trigger] s2.threads[a].handle != #[trigger] s2.threads[b].handle by {
        assert(s2.threads[a].handle == s.threads[a].handle);
        assert(s2.threads[b].handle == s.threads[b].handle);
    }
}

/// Every outcome of the protocol's step satisfies the action discipline.
proof fn lemma_advance_action_ok(t: ThreadModel, event: MutexEvent)
    requires
        action_ok(t),
        super::accepts(t.phase, event),
        t.handle & 0x4000_0000 == 0,
    ensures
        action_ok(advance(t, event)),
{
}

/// Taking an action keeps the invariant.
pub proof fn lemma_perform_keeps_inv(s: SystemModel, i: int, choice: KernelChoice)
    requires
        inv(s),
        can_perform(s, i, choice),
    ensures
        inv(perform(s, i, choice)),
{
    let t = s.threads[i];
    let w = s.word;
    let s2 = perform(s, i, choice);
    lemma_owner_bits(t.handle, w);
    assert(s2.threads.len() == s.threads.len());
    assert forall|a: int, b: int| 0 <= a < s2.threads.len() && 0 <= b < s2.threads.len() && a != b implies #[trigger] s2.threads[a].handle != #[trigger] s2.threads[b].handle by {
        assert(s2.threads[a].handle == s.threads[a].handle);
        assert(s2.threads[b].handle == s.threads[b].handle);
    }
    assert forall|k: int| 0 <= k < s2.threads.len() implies (#[trigger] s2.threads[k]).handle == s.threads[k].handle by {}
    if t.granted && t.phase == MutexPhase::LockArbitrating {
        assert(inv(s2));
    } else {
        match t.action {
            MutexAction::LoadExclusive => {
                assert(inv(s2));
            },
            MutexAction::StoreExclusive(v) => {
                if t.monitor is Some {
                    assert(forall|k: int| 0 <= k < s.threads.len() && k != i ==> !in_cs(#[trigger] s.threads[k])
                        || owner(v) == s.threads[k].handle);
                    assert(inv(s2));
                } else {
                    assert(inv(s2));
                }
            },
            MutexAction::ArbitrateLock { owner } => {
                assert(inv(s2));
            },
            MutexAction::ArbitrateUnlock => {
                assert(t.phase == MutexPhase::UnlockArbitrating);
                assert(in_cs(t));
                assert(owner(w) == t.handle);
                assert forall|k: int| 0 <= k < s.threads.len() && k != i implies !in_cs(#[trigger] s.threads[k]) by {
                    if in_cs(s.threads[k]) {
                        assert(s.threads[k].handle == t.handle);
                    }
                }
                match choice {
                    KernelChoice::Fail => {
                        assert(inv(s2));
                    },
                    KernelChoice::Succeed => {
                        assert(owner(0) == 0);
                        assert(inv(s2));
                    },
                    KernelChoice::Wake(n) => {
                        let next = s.threads[n];
                        assert(n != i);
                        lemma_owner_bits(next.handle, w);
                        assert(owner(s2.word) == next.handle);
                        assert(s2.threads[n].granted);
                        assert forall|k: int| 0 <= k < s2.threads.len() && in_cs(#[trigger] s2.threads[k])
                            implies owner(s2.word) == s2.threads[k].handle by {
                            if k != n && k != i {
                                assert(s2.threads[k].phase == s.threads[k].phase);
                                assert(s2.threads[k].granted == s.threads[k].granted);
                            }
                        }
                        assert forall|k: int| 0 <= k < s2.threads.len() implies sleep_ok(#[trigger] s2.threads[k]) by {
                            if k != n && k != i {
                                assert(s2.threads[k].phase == s.threads[k].phase);
                                assert(sleep_ok(s.threads[k]));
                            }
                        }
                        assert forall|k: int| 0 <= k < s2.threads.len() implies action_ok(#[trigger] s2.threads[k]) by {
                            if k != i {
                                assert(action_ok(s.threads[k]));
                            }
                        }
                        assert(inv(s2));
                    },
                }
            },
            MutexAction::BreakAssert => {
                assert(inv(s2));
            },
            MutexAction::ClearExclusive => {
                assert(inv(s2));
            },
            MutexAction::Finish => {
            },
        }
    }
}

} // verus!
