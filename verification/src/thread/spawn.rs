//! Creating, starting, waiting for and detaching threads.
//!
//! Building a thread alternates decisions with outside work (allocating a
//! stack, mapping it, asking the kernel for the thread): `ThreadBuilder`
//! starts the build and `build_step` decides each next action from the
//! outcome of the last one. A spawned thread and the thread that owns its
//! handle share a state word, which each side exchanges once; `on_detach`
//! and `on_finish` decide what each side does from its exchange.

use core::marker::PhantomData;
use vstd::prelude::*;
use crate::result::{NxError, NxResult};

verus! {

/// The thread is running, and its owner still holds its handle.
pub const THREAD_STATE_RUNNING: u32 = 0;

/// The thread has stored its return value and finished.
pub const THREAD_STATE_FINISHED: u32 = 1;

/// The owner has let go of the handle while the thread was running.
pub const THREAD_STATE_DETACHED: u32 = 2;

/// Why waiting for a thread stopped before it finished.
#[derive(Debug, Copy, Clone, PartialEq, Eq, Structural)]
pub enum ThreadWaitErrorReason {
    /// A different thread has requested the waiting thread to cancel its wait request
    Cancelled,
    /// The process is being terminated so the wait must be stopped
    Termination,
    /// Waiting on the thread timed out
    TimedOut,
}

/// The reason for a failed wait, from the kernel's error; `None` for an
/// error that a wait cannot return, on which the process aborts.
pub fn wait_error_reason(e: NxError) -> (r: Option<ThreadWaitErrorReason>)
    ensures
        e@ == crate::result::error_bits(1, crate::result::svc::CANCELLED) ==> r == Some(
            ThreadWaitErrorReason::Cancelled,
        ),
        e@ == crate::result::error_bits(1, crate::result::svc::TERMINATION_REQUESTED) ==> r == Some(
            ThreadWaitErrorReason::Termination,
        ),
        e@ == crate::result::error_bits(1, crate::result::svc::TIMED_OUT) ==> r == Some(
            ThreadWaitErrorReason::TimedOut,
        ),
        (e@ != crate::result::error_bits(1, crate::result::svc::CANCELLED) && e@
            != crate::result::error_bits(1, crate::result::svc::TERMINATION_REQUESTED) && e@
            != crate::result::error_bits(1, crate::result::svc::TIMED_OUT)) ==> r is None,
{
    proof {
        crate::result::svc::lemma_wait_codes();
    }
    if crate::result::svc::is(e, crate::result::svc::CANCELLED) {
        Some(ThreadWaitErrorReason::Cancelled)
    } else if crate::result::svc::is(e, crate::result::svc::TERMINATION_REQUESTED) {
        Some(ThreadWaitErrorReason::Termination)
    } else if crate::result::svc::is(e, crate::result::svc::TIMED_OUT) {
        Some(ThreadWaitErrorReason::TimedOut)
    } else {
        None
    }
}

/// What the owner does when it lets go of a spawned thread.
#[derive(Debug, Copy, Clone, PartialEq, Eq, Structural)]
pub enum DetachAction {
    /// The thread is still running; it will drop its return value itself.
    Nothing,
    /// The thread has finished: drop its return value and release its stack and handle.
    DropReturnValueAndRelease,
    /// The state word holds a value no side writes: abort.
    Fail,
}

/// What a thread does once it has stored its return value.
#[derive(Debug, Copy, Clone, PartialEq, Eq, Structural)]
pub enum FinishAction {
    /// The owner still holds the handle and will take the return value.
    Nothing,
    /// The owner has let go: drop the return value.
    DropReturnValue,
    /// The state word holds a value no side writes: abort.
    Fail,
}

/// The owner's decision, from the outcome of exchanging the state word from
/// running to detached (`Ok` with the old value when it was running,
/// otherwise `Err` with the value found).
pub open spec fn on_detach_spec(exchange: Result<u32, u32>) -> DetachAction {
    match exchange {
        Ok(_) => DetachAction::Nothing,
        Err(v) => if v == THREAD_STATE_FINISHED {
            DetachAction::DropReturnValueAndRelease
        } else {
            DetachAction::Fail
        },
    }
}

/// The thread's decision, from the outcome of exchanging the state word from
/// running to finished.
pub open spec fn on_finish_spec(exchange: Result<u32, u32>) -> FinishAction {
    match exchange {
        Ok(_) => FinishAction::Nothing,
        Err(v) => if v == THREAD_STATE_DETACHED {
            FinishAction::DropReturnValue
        } else {
            FinishAction::Fail
        },
    }
}

/// Decides what the owner does when it lets go of a spawned thread.
pub fn on_detach(exchange: Result<u32, u32>) -> (r: DetachAction)
    ensures
        r == on_detach_spec(exchange),
{
    match exchange {
        Ok(_) => DetachAction::Nothing,
        Err(v) => if v == THREAD_STATE_FINISHED {
            DetachAction::DropReturnValueAndRelease
        } else {
            DetachAction::Fail
        },
    }
}

/// Decides what a thread does once it has stored its return value.
pub fn on_finish(exchange: Result<u32, u32>) -> (r: FinishAction)
    ensures
        r == on_finish_spec(exchange),
{
    match exchange {
        Ok(_) => FinishAction::Nothing,
        Err(v) => if v == THREAD_STATE_DETACHED {
            FinishAction::DropReturnValue
        } else {
            FinishAction::Fail
        },
    }
}

/// A compare-exchange of the state word: the outcome and the new word.
pub open spec fn compare_exchange(word: u32, current: u32, new: u32) -> (Result<u32, u32>, u32) {
    if word == current {
        (Ok(word), new)
    } else {
        (Err(word), word)
    }
}

/// However the owner's detaching and the thread's finishing interleave, the
/// return value is dropped exactly once, and nothing aborts.
pub proof fn lemma_return_value_dropped_once()
    ensures
        ({
            // the owner detaches first, then the thread finishes
            let (d1, w1) = compare_exchange(THREAD_STATE_RUNNING, THREAD_STATE_RUNNING, THREAD_STATE_DETACHED);
            let (f1, _) = compare_exchange(w1, THREAD_STATE_RUNNING, THREAD_STATE_FINISHED);
            on_detach_spec(d1) == DetachAction::Nothing && on_finish_spec(f1) == FinishAction::DropReturnValue
        }),
        ({
            // the thread finishes first, then the owner detaches
            let (f2, w2) = compare_exchange(THREAD_STATE_RUNNING, THREAD_STATE_RUNNING, THREAD_STATE_FINISHED);
            let (d2, _) = compare_exchange(w2, THREAD_STATE_RUNNING, THREAD_STATE_DETACHED);
            on_finish_spec(f2) == FinishAction::Nothing && on_detach_spec(d2)
                == DetachAction::DropReturnValueAndRelease
        }),
{
}

/// Why a thread could not be created.
#[derive(Debug, Copy, Clone, PartialEq, Eq, Structural)]
pub enum ThreadCreationError {
    InvalidStackSize,
    InvalidStackAlignment,
    StackAllocationFailed(NxError),
    CreateThreadError(NxError),
}

/// The stack size of a thread built without one being chosen.
pub const DEFAULT_STACK_SIZE: usize = 0x4000;

/// The settings of a thread to be created: its stack (the start address of a
/// caller-provided stack, or `None` to allocate one), stack size, priority and
/// processor core.
#[verifier::reject_recursive_types(F)]
#[verifier::reject_recursive_types(R)]
pub struct ThreadBuilder<F: FnOnce() -> R + Send, R: Send> {
    stack: Option<usize>,
    stack_size: usize,
    priority: i32,
    core_id: i32,
    marker: PhantomData<(F, R)>,
}

/// The settings of a thread builder, as plain values.
pub struct BuilderSettings {
    pub stack: Option<usize>,
    pub stack_size: usize,
    pub priority: i32,
    pub core_id: i32,
}

/// Where building a thread stands.
#[derive(Debug, Copy, Clone, PartialEq, Eq, Structural)]
pub enum BuildPhase {
    /// Waiting for a stack to be allocated.
    AwaitStack,
    /// Waiting for the stack at `stack` to be mapped; `owned` tells whether it was allocated here.
    AwaitMapping { stack: usize, owned: bool },
    /// Waiting for the kernel to create the thread.
    AwaitThread { stack: usize, owned: bool },
    /// Waiting for the mapping to be undone after the kernel refused the thread.
    AwaitUnmap { error: NxError, stack: usize, owned: bool },
    /// Waiting for the stack allocated by this build to be freed before it fails with `error`.
    AwaitFree { failure: ThreadCreationError },
    /// Building is over.
    Finished,
}

/// The outcome of the last action of a build.
#[derive(Debug, Copy, Clone)]
pub enum BuildEvent {
    /// The stack was allocated at this address (zero when the allocation failed).
    StackAllocated(usize),
    /// The mapping of the stack answered: the address at which the stack is seen, or an error.
    Mapped(NxResult<u64>),
    /// The kernel answered the creation of the thread: its handle, or an error.
    Created(NxResult<u32>),
    /// The mapping of the stack was undone.
    Unmapped,
    /// The stack allocated by this build was freed.
    Freed,
}

/// What the caller does next in a build.
#[derive(Debug, Copy, Clone, PartialEq, Eq, Structural)]
pub enum BuildAction {
    /// Allocate `size` bytes aligned to `align`, and report `StackAllocated`.
    AllocateStack { size: usize, align: usize },
    /// Map `size` bytes of stack at `address` into the stack region, and report `Mapped`.
    MapStack { address: usize, size: usize },
    /// Write the thread's context at `context` and ask the kernel for a
    /// thread with that stack top, priority and core, and report `Created`.
    CreateThread { context: u64, stack_top: u64, priority: i32, core_id: i32 },
    /// Undo the stack mapping, and report `Unmapped`.
    UnmapStack,
    /// Free the `size` bytes of stack at `address` that this build
    /// allocated, and report `Freed`.
    FreeStack { address: usize, size: usize },
    /// Building failed with this error.
    Fail(ThreadCreationError),
    /// The stack allocation returned no memory: abort.
    Abort,
    /// The thread was created, not started, with this handle.
    Created { handle: u32 },
}

/// Whether `event` is the outcome that `phase` waits for.
pub open spec fn build_accepts(phase: BuildPhase, event: BuildEvent) -> bool {
    match phase {
        BuildPhase::AwaitStack => event is StackAllocated,
        BuildPhase::AwaitMapping { .. } => event is Mapped,
        BuildPhase::AwaitThread { .. } => event is Created,
        BuildPhase::AwaitUnmap { .. } => event is Unmapped,
        BuildPhase::AwaitFree { .. } => event is Freed,
        BuildPhase::Finished => false,
    }
}

/// The first action of a build, from the builder's settings and the size of
/// the thread context stored at the top of the stack.
pub open spec fn build_start_spec(s: BuilderSettings, context_size: usize) -> (BuildPhase, BuildAction) {
    if s.stack_size % 4096 != 0 || context_size >= s.stack_size {
        (BuildPhase::Finished, BuildAction::Fail(ThreadCreationError::InvalidStackSize))
    } else {
        match s.stack {
            Some(p) => if p % 4096 == 0 {
                (BuildPhase::AwaitMapping { stack: p, owned: false }, BuildAction::MapStack { address: p, size: s.stack_size })
            } else {
                (BuildPhase::Finished, BuildAction::Fail(ThreadCreationError::InvalidStackAlignment))
            },
            None => (BuildPhase::AwaitStack, BuildAction::AllocateStack { size: s.stack_size, align: 4096 }),
        }
    }
}

/// How a build fails with `error` once the stack at `stack` is of no more
/// use: a stack that the build allocated (`owned`) is freed first.
pub open spec fn fail_spec(s: BuilderSettings, error: ThreadCreationError, stack: usize, owned: bool) -> (BuildPhase, BuildAction) {
    if owned {
        (BuildPhase::AwaitFree { failure: error }, BuildAction::FreeStack { address: stack, size: s.stack_size })
    } else {
        (BuildPhase::Finished, BuildAction::Fail(error))
    }
}

/// The transition table of a build.
pub open spec fn build_step_spec(s: BuilderSettings, context_size: usize, phase: BuildPhase, event: BuildEvent) -> (BuildPhase, BuildAction) {
    match (phase, event) {
        (BuildPhase::AwaitStack, BuildEvent::StackAllocated(p)) => if p == 0 {
            (BuildPhase::Finished, BuildAction::Abort)
        } else if p % 4096 != 0 {
            fail_spec(s, ThreadCreationError::InvalidStackAlignment, p, true)
        } else {
            (BuildPhase::AwaitMapping { stack: p, owned: true }, BuildAction::MapStack { address: p, size: s.stack_size })
        },
        (BuildPhase::AwaitMapping { stack, owned }, BuildEvent::Mapped(m)) => match m {
            Err(e) => fail_spec(s, ThreadCreationError::StackAllocationFailed(e), stack, owned),
            Ok(mapped) => {
                let top = (mapped + s.stack_size - context_size) as u64;
                (BuildPhase::AwaitThread { stack, owned }, BuildAction::CreateThread {
                    context: top,
                    stack_top: top,
                    priority: s.priority,
                    core_id: s.core_id,
                })
            },
        },
        (BuildPhase::AwaitThread { stack, owned }, BuildEvent::Created(c)) => match c {
            Err(e) => (BuildPhase::AwaitUnmap { error: e, stack, owned }, BuildAction::UnmapStack),
            Ok(h) => (BuildPhase::Finished, BuildAction::Created { handle: h }),
        },
        (BuildPhase::AwaitUnmap { error, stack, owned }, BuildEvent::Unmapped) => fail_spec(
            s,
            ThreadCreationError::CreateThreadError(error),
            stack,
            owned,
        ),
        (BuildPhase::AwaitFree { failure }, BuildEvent::Freed) => (BuildPhase::Finished, BuildAction::Fail(failure)),
        _ => (BuildPhase::Finished, BuildAction::Abort),
    }
}

impl<F: FnOnce() -> R + Send, R: Send> Default for ThreadBuilder<F, R> {
    /// The same builder as `new`.
    fn default() -> (r: Self)
        ensures
            r.settings() == (BuilderSettings {
                stack: None,
                stack_size: DEFAULT_STACK_SIZE,
                priority: 16,
                core_id: -2i32,
            }),
    {
        Self::new()
    }
}

impl<F: FnOnce() -> R + Send, R: Send> ThreadBuilder<F, R> {
    /// The builder's settings.
    pub closed spec fn settings(&self) -> BuilderSettings {
        BuilderSettings {
            stack: self.stack,
            stack_size: self.stack_size,
            priority: self.priority,
            core_id: self.core_id,
        }
    }

    /// A builder with an allocated stack of the default size, priority 16 and
    /// the default core (-2).
    pub fn new() -> (r: Self)
        ensures
            r.settings() == (BuilderSettings {
                stack: None,
                stack_size: DEFAULT_STACK_SIZE,
                priority: 16,
                core_id: -2i32,
            }),
    {
        ThreadBuilder {
            stack: None,
            stack_size: DEFAULT_STACK_SIZE,
            priority: 16,
            core_id: -2,
            marker: PhantomData,
        }
    }

    /// Uses the stack at `ptr` (or an allocated one, for `None`) of `size` bytes.
    /// The caller keeps a provided stack valid for the life of the thread.
    pub fn with_stack(self, ptr: Option<usize>, size: usize) -> (r: Self)
        ensures
            r.settings() == (BuilderSettings { stack: ptr, stack_size: size, ..self.settings() }),
    {
        ThreadBuilder { stack: ptr, stack_size: size, ..self }
    }

    /// Uses an allocated stack of `size` bytes.
    pub fn with_stack_size(self, size: usize) -> (r: Self)
        ensures
            r.settings() == (BuilderSettings { stack: None, stack_size: size, ..self.settings() }),
    {
        self.with_stack(None, size)
    }

    /// Sets the thread's priority.
    pub fn with_priority(self, prio: i32) -> (r: Self)
        ensures
            r.settings() == (BuilderSettings { priority: prio, ..self.settings() }),
    {
        ThreadBuilder { priority: prio, ..self }
    }

    /// Sets the processor core the thread runs on.
    pub fn with_core_id(self, core_id: i32) -> (r: Self)
        ensures
            r.settings() == (BuilderSettings { core_id, ..self.settings() }),
    {
        ThreadBuilder { core_id, ..self }
    }

    /// The builder's settings, as plain values.
    pub fn to_settings(&self) -> (r: BuilderSettings)
        ensures
            r == self.settings(),
    {
        BuilderSettings {
            stack: self.stack,
            stack_size: self.stack_size,
            priority: self.priority,
            core_id: self.core_id,
        }
    }

    /// Starts building a thread whose context takes `context_size` bytes at
    /// the top of its stack. The stack size must be a multiple of the page
    /// size and exceed the context; a provided stack must be page aligned.
    pub fn build(&self, context_size: usize) -> (r: (BuildPhase, BuildAction))
        ensures
            r == build_start_spec(self.settings(), context_size),
    {
        if self.stack_size % crate::PAGE_SIZE != 0 || context_size >= self.stack_size {
            return (BuildPhase::Finished, BuildAction::Fail(ThreadCreationError::InvalidStackSize));
        }
        match self.stack {
            Some(p) => if p % crate::PAGE_SIZE == 0 {
                (BuildPhase::AwaitMapping { stack: p, owned: false }, BuildAction::MapStack { address: p, size: self.stack_size })
            } else {
                (BuildPhase::Finished, BuildAction::Fail(ThreadCreationError::InvalidStackAlignment))
            },
            None => (BuildPhase::AwaitStack, BuildAction::AllocateStack { size: self.stack_size, align: crate::PAGE_SIZE }),
        }
    }

    /// Advances a build by one step, from the outcome of the last action.
    pub fn build_step(&self, context_size: usize, phase: BuildPhase, event: BuildEvent) -> (r: (BuildPhase, BuildAction))
        requires
            build_accepts(phase, event),
            context_size < self.settings().stack_size,
            event is Mapped && event->Mapped_0 is Ok ==> event->Mapped_0->Ok_0 + self.settings().stack_size <= u64::MAX,
        ensures
            r == build_step_spec(self.settings(), context_size, phase, event),
    {
        match (phase, event) {
            (BuildPhase::AwaitStack, BuildEvent::StackAllocated(p)) => if p == 0 {
                (BuildPhase::Finished, BuildAction::Abort)
            } else if p % crate::PAGE_SIZE != 0 {
                (
                    BuildPhase::AwaitFree { failure: ThreadCreationError::InvalidStackAlignment },
                    BuildAction::FreeStack { address: p, size: self.stack_size },
                )
            } else {
                (BuildPhase::AwaitMapping { stack: p, owned: true }, BuildAction::MapStack { address: p, size: self.stack_size })
            },
            (BuildPhase::AwaitMapping { stack, owned }, BuildEvent::Mapped(m)) => match m {
                Err(e) => self.fail(ThreadCreationError::StackAllocationFailed(e), stack, owned),
                Ok(mapped) => {
                    let top = mapped + (self.stack_size - context_size) as u64;
                    (BuildPhase::AwaitThread { stack, owned }, BuildAction::CreateThread {
                        context: top,
                        stack_top: top,
                        priority: self.priority,
                        core_id: self.core_id,
                    })
                },
            },
            (BuildPhase::AwaitThread { stack, owned }, BuildEvent::Created(c)) => match c {
                Err(e) => (BuildPhase::AwaitUnmap { error: e, stack, owned }, BuildAction::UnmapStack),
                Ok(h) => (BuildPhase::Finished, BuildAction::Created { handle: h }),
            },
            (BuildPhase::AwaitUnmap { error, stack, owned }, BuildEvent::Unmapped) => self.fail(
                ThreadCreationError::CreateThreadError(error),
                stack,
                owned,
            ),
            (BuildPhase::AwaitFree { failure }, BuildEvent::Freed) => (BuildPhase::Finished, BuildAction::Fail(failure)),
            _ => (BuildPhase::Finished, BuildAction::Abort),
        }
    }

    /// Fails a build with `error`, first freeing the stack at `stack` when the build allocated it.
    fn fail(&self, error: ThreadCreationError, stack: usize, owned: bool) -> (r: (BuildPhase, BuildAction))
        ensures
            r == fail_spec(self.settings(), error, stack, owned),
    {
        if owned {
            (BuildPhase::AwaitFree { failure: error }, BuildAction::FreeStack { address: stack, size: self.stack_size })
        } else {
            (BuildPhase::Finished, BuildAction::Fail(error))
        }
    }
}

/// A thread is only ever created on a valid, page-aligned stack, with its
/// context placed so that it ends exactly at the end of the mapped stack; a
/// refused thread always has its mapping undone before the build fails; and
/// a build that fails after allocating its own stack frees that stack, and
/// only that one, before it fails.
pub proof fn lemma_build_creates_on_valid_stack(
    s: BuilderSettings,
    context_size: usize,
    phase: BuildPhase,
    event: BuildEvent,
)
    requires
        build_accepts(phase, event),
        build_start_spec(s, context_size).0 != BuildPhase::Finished,
        event is Mapped && event->Mapped_0 is Ok ==> event->Mapped_0->Ok_0 + s.stack_size <= u64::MAX,
    ensures
        s.stack_size % 4096 == 0 && context_size < s.stack_size,
        ({
            let (next, action) = build_step_spec(s, context_size, phase, event);
            &&& action is CreateThread ==> event is Mapped && event->Mapped_0 is Ok && action->context
                + context_size == event->Mapped_0->Ok_0 + s.stack_size
            &&& action is MapStack ==> action->MapStack_address % 4096 == 0 && action->MapStack_size == s.stack_size
            &&& (action is Fail && action->Fail_0 is CreateThreadError) ==> phase is AwaitUnmap
                || phase is AwaitFree
            &&& next is AwaitUnmap ==> action == BuildAction::UnmapStack
            &&& action is Fail && phase !is AwaitFree ==> !(phase matches BuildPhase::AwaitMapping { owned, .. } && owned)
                && !(phase matches BuildPhase::AwaitUnmap { owned, .. } && owned) && !(phase is AwaitStack)
            &&& action is FreeStack ==> next is AwaitFree && action->FreeStack_size == s.stack_size && (
            (event matches BuildEvent::StackAllocated(p) && phase is AwaitStack && action->FreeStack_address == p)
                || (phase matches BuildPhase::AwaitMapping { stack, owned } && owned && action->FreeStack_address == stack)
                || (phase matches BuildPhase::AwaitUnmap { stack, owned, .. } && owned && action->FreeStack_address == stack))
        }),
{
}

} // verus!
