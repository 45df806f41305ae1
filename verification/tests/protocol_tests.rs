use nx::mutex::{lock_start, step, try_lock_start, unlock_start, MutexAction, MutexEvent, MutexPhase};
use nx::result::svc;
use nx::thread::spawn::{
    on_detach, on_finish, wait_error_reason, BuildAction, BuildEvent, BuildPhase, DetachAction, FinishAction,
    ThreadBuilder, ThreadCreationError, ThreadWaitErrorReason, THREAD_STATE_DETACHED, THREAD_STATE_FINISHED,
    THREAD_STATE_RUNNING,
};

const H: u32 = 0x1234;
const W: u32 = 0x4000_0000;

#[test]
fn lock_free_word_without_kernel() {
    let (p, a) = lock_start();
    assert_eq!(a, MutexAction::LoadExclusive);
    let (p, a) = step(p, H, MutexEvent::Loaded(0));
    assert_eq!(a, MutexAction::StoreExclusive(H));
    let (p, a) = step(p, H, MutexEvent::Stored(true));
    assert_eq!(p, MutexPhase::Locked);
    assert_eq!(a, MutexAction::Finish);
}

#[test]
fn lock_retries_after_failed_store() {
    let (p, _) = lock_start();
    let (p, _) = step(p, H, MutexEvent::Loaded(0));
    let (p, a) = step(p, H, MutexEvent::Stored(false));
    assert_eq!(p, MutexPhase::LockLoading);
    assert_eq!(a, MutexAction::LoadExclusive);
}

#[test]
fn lock_contended_goes_to_kernel() {
    let owner = 0x99;
    let (p, _) = lock_start();
    let (p, a) = step(p, H, MutexEvent::Loaded(owner));
    assert_eq!(a, MutexAction::StoreExclusive(owner | W));
    let (p, a) = step(p, H, MutexEvent::Stored(true));
    assert_eq!(a, MutexAction::ArbitrateLock { owner });
    let (p, a) = step(p, H, MutexEvent::Arbitrated(true));
    assert_eq!(a, MutexAction::LoadExclusive);
    // the kernel handed the mutex over, with other waiters left
    let (p, a) = step(p, H, MutexEvent::Loaded(H | W));
    assert_eq!(a, MutexAction::ClearExclusive);
    let (p, a) = step(p, H, MutexEvent::Completed);
    assert_eq!(p, MutexPhase::Locked);
    assert_eq!(a, MutexAction::Finish);
}

#[test]
fn lock_with_waiter_bit_arbitrates_at_once() {
    let (p, _) = lock_start();
    let (_, a) = step(p, H, MutexEvent::Loaded(0x77 | W));
    assert_eq!(a, MutexAction::ArbitrateLock { owner: 0x77 });
}

#[test]
fn lock_reports_kernel_failure() {
    let (p, _) = lock_start();
    let (p, _) = step(p, H, MutexEvent::Loaded(0x77 | W));
    let (p, a) = step(p, H, MutexEvent::Arbitrated(false));
    assert_eq!(a, MutexAction::BreakAssert);
    let (p, a) = step(p, H, MutexEvent::Completed);
    assert_eq!(p, MutexPhase::LockReloading);
    assert_eq!(a, MutexAction::LoadExclusive);
}

#[test]
fn try_lock_outcomes() {
    let (p, _) = try_lock_start();
    let (p2, a) = step(p, H, MutexEvent::Loaded(5));
    assert_eq!(p2, MutexPhase::TryDone { acquired: false });
    assert_eq!(a, MutexAction::Finish);
    let (p3, a) = step(p, H, MutexEvent::Loaded(0));
    assert_eq!(a, MutexAction::StoreExclusive(H));
    let (p4, _) = step(p3, H, MutexEvent::Stored(true));
    assert_eq!(p4, MutexPhase::TryDone { acquired: true });
    let (p5, _) = step(p3, H, MutexEvent::Stored(false));
    assert_eq!(p5, MutexPhase::TryLoading);
}

#[test]
fn unlock_outcomes() {
    let (p, _) = unlock_start();
    let (q, a) = step(p, H, MutexEvent::Loaded(H));
    assert_eq!(a, MutexAction::StoreExclusive(0));
    assert_eq!(step(q, H, MutexEvent::Stored(true)).0, MutexPhase::Unlocked);
    let (q, a) = step(p, H, MutexEvent::Loaded(H | W));
    assert_eq!(a, MutexAction::ArbitrateUnlock);
    assert_eq!(step(q, H, MutexEvent::Arbitrated(true)), (MutexPhase::Unlocked, MutexAction::Finish));
    let (q2, a2) = step(q, H, MutexEvent::Arbitrated(false));
    assert_eq!(a2, MutexAction::BreakAssert);
    assert_eq!(step(q2, H, MutexEvent::Completed).0, MutexPhase::Unlocked);
    // not the owner and no waiters: nothing is written
    assert_eq!(step(p, H, MutexEvent::Loaded(0x55)), (MutexPhase::Unlocked, MutexAction::Finish));
}

#[test]
fn wait_errors_map_to_reasons() {
    assert_eq!(wait_error_reason(svc::error(svc::CANCELLED)), Some(ThreadWaitErrorReason::Cancelled));
    assert_eq!(
        wait_error_reason(svc::error(svc::TERMINATION_REQUESTED)),
        Some(ThreadWaitErrorReason::Termination)
    );
    assert_eq!(wait_error_reason(svc::error(svc::TIMED_OUT)), Some(ThreadWaitErrorReason::TimedOut));
    assert_eq!(wait_error_reason(svc::error(svc::INVALID_HANDLE)), None);
}

#[test]
fn detach_and_finish_drop_once() {
    // owner first
    assert_eq!(on_detach(Ok(THREAD_STATE_RUNNING)), DetachAction::Nothing);
    assert_eq!(on_finish(Err(THREAD_STATE_DETACHED)), FinishAction::DropReturnValue);
    // thread first
    assert_eq!(on_finish(Ok(THREAD_STATE_RUNNING)), FinishAction::Nothing);
    assert_eq!(on_detach(Err(THREAD_STATE_FINISHED)), DetachAction::DropReturnValueAndRelease);
    // corrupted state
    assert_eq!(on_detach(Err(7)), DetachAction::Fail);
    assert_eq!(on_finish(Err(7)), FinishAction::Fail);
}

type Builder = ThreadBuilder<fn() -> u32, u32>;

#[test]
fn builder_defaults_and_setters() {
    let s = Builder::new().to_settings();
    assert_eq!((s.stack, s.stack_size, s.priority, s.core_id), (None, 0x4000, 16, -2));
    let d = Builder::default().to_settings();
    assert_eq!((d.stack, d.stack_size, d.priority, d.core_id), (None, 0x4000, 16, -2));
    let s = Builder::new().with_priority(44).with_core_id(3).with_stack(Some(0x10000), 0x8000).to_settings();
    assert_eq!((s.stack, s.stack_size, s.priority, s.core_id), (Some(0x10000), 0x8000, 44, 3));
    let s = Builder::new().with_stack(Some(0x10000), 0x8000).with_stack_size(0x2000).to_settings();
    assert_eq!((s.stack, s.stack_size), (None, 0x2000));
}

#[test]
fn build_rejects_bad_stacks() {
    let (p, a) = Builder::new().with_stack_size(0x4100).build(0x40);
    assert_eq!(p, BuildPhase::Finished);
    assert_eq!(a, BuildAction::Fail(ThreadCreationError::InvalidStackSize));
    let (_, a) = Builder::new().with_stack_size(0x1000).build(0x1000);
    assert_eq!(a, BuildAction::Fail(ThreadCreationError::InvalidStackSize));
    let (_, a) = Builder::new().with_stack(Some(0x10010), 0x4000).build(0x40);
    assert_eq!(a, BuildAction::Fail(ThreadCreationError::InvalidStackAlignment));
}

#[test]
fn build_with_allocated_stack() {
    let b = Builder::new().with_priority(20).with_core_id(1);
    let (p, a) = b.build(0x40);
    assert_eq!(a, BuildAction::AllocateStack { size: 0x4000, align: 0x1000 });
    let (p, a) = b.build_step(0x40, p, BuildEvent::StackAllocated(0x20_0000));
    assert_eq!(a, BuildAction::MapStack { address: 0x20_0000, size: 0x4000 });
    let (p, a) = b.build_step(0x40, p, BuildEvent::Mapped(Ok(0x7000_0000)));
    assert_eq!(
        a,
        BuildAction::CreateThread { context: 0x7000_3FC0, stack_top: 0x7000_3FC0, priority: 20, core_id: 1 }
    );
    let (p, a) = b.build_step(0x40, p, BuildEvent::Created(Ok(0x55)));
    assert_eq!(p, BuildPhase::Finished);
    assert_eq!(a, BuildAction::Created { handle: 0x55 });
}

#[test]
fn build_failures_after_start() {
    let b = Builder::new();
    let (p, _) = b.build(0x40);
    assert_eq!(b.build_step(0x40, p, BuildEvent::StackAllocated(0)).1, BuildAction::Abort);
    // a misaligned allocation is freed before the build fails
    let (p2, a) = b.build_step(0x40, p, BuildEvent::StackAllocated(0x123));
    assert_eq!(a, BuildAction::FreeStack { address: 0x123, size: 0x4000 });
    assert_eq!(b.build_step(0x40, p2, BuildEvent::Freed), (BuildPhase::Finished, BuildAction::Fail(ThreadCreationError::InvalidStackAlignment)));
    let (p, _) = b.build_step(0x40, p, BuildEvent::StackAllocated(0x20_0000));
    let e = svc::error(svc::OUT_OF_MEMORY);
    let (p2, a) = b.build_step(0x40, p, BuildEvent::Mapped(Err(e)));
    assert_eq!(a, BuildAction::FreeStack { address: 0x20_0000, size: 0x4000 });
    assert_eq!(b.build_step(0x40, p2, BuildEvent::Freed).1, BuildAction::Fail(ThreadCreationError::StackAllocationFailed(e)));
    let (p, _) = b.build_step(0x40, p, BuildEvent::Mapped(Ok(0x7000_0000)));
    let e2 = svc::error(svc::INVALID_PRIORITY);
    let (p, a) = b.build_step(0x40, p, BuildEvent::Created(Err(e2)));
    assert_eq!(a, BuildAction::UnmapStack);
    let (p, a) = b.build_step(0x40, p, BuildEvent::Unmapped);
    assert_eq!(a, BuildAction::FreeStack { address: 0x20_0000, size: 0x4000 });
    assert_eq!(b.build_step(0x40, p, BuildEvent::Freed).1, BuildAction::Fail(ThreadCreationError::CreateThreadError(e2)));
}

#[test]
fn build_failures_keep_provided_stack() {
    let b = Builder::new().with_stack(Some(0x30_0000), 0x2000);
    let (p, _) = b.build(0x40);
    let e = svc::error(svc::OUT_OF_MEMORY);
    assert_eq!(
        b.build_step(0x40, p, BuildEvent::Mapped(Err(e))),
        (BuildPhase::Finished, BuildAction::Fail(ThreadCreationError::StackAllocationFailed(e)))
    );
    let (p, _) = b.build_step(0x40, p, BuildEvent::Mapped(Ok(0x7000_0000)));
    let (p, _) = b.build_step(0x40, p, BuildEvent::Created(Err(e)));
    assert_eq!(b.build_step(0x40, p, BuildEvent::Unmapped).1, BuildAction::Fail(ThreadCreationError::CreateThreadError(e)));
}

#[test]
fn build_with_provided_stack() {
    let (p, a) = Builder::new().with_stack(Some(0x30_0000), 0x2000).build(0x40);
    assert_eq!(p, BuildPhase::AwaitMapping { stack: 0x30_0000, owned: false });
    assert_eq!(a, BuildAction::MapStack { address: 0x30_0000, size: 0x2000 });
}
