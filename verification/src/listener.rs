//! The listener bind lifecycle: bind an endpoint name, and on "address in
//! use" distinguish a stale leftover endpoint file from one held by a live
//! sibling instance of the same executable. A sibling's endpoint is never
//! stolen; a stale file is deleted once and the bind retried exactly once.
//!
//! The lifecycle is a state machine. The host application owns the transport:
//! it performs the action the current state calls for (a bind attempt, the
//! instance count query, the file deletion) and feeds the outcome back as an
//! event. The decisions — and how often each action can ever be demanded —
//! are fixed here.

use vstd::prelude::*;
use crate::errors::IpcServerError;

verus! {

/// Where the bind lifecycle stands.
#[derive(Clone, Copy, Debug, PartialEq, Eq, Structural)]
pub enum BindState {
    /// Nothing attempted yet: the first bind is due.
    Start,
    /// The first bind found the address in use: the sibling-instance count
    /// decides whether the endpoint is stale or legitimately held.
    Conflicted,
    /// No sibling holds the endpoint: the stale file is to be deleted.
    Recovering,
    /// The stale file is gone: the single retry bind is due.
    Retrying,
    /// A bind succeeded: the listener owns the endpoint.
    Bound,
    /// The lifecycle ended with this error.
    Failed(IpcServerError),
}

/// The outcome of the action a state called for, reported by the host.
#[derive(Clone, Copy, Debug, PartialEq, Eq, Structural)]
pub enum BindEvent {
    /// A bind attempt succeeded.
    BindSucceeded,
    /// A bind attempt failed because the address is already in use.
    BindAddrInUse,
    /// A bind attempt failed for any other reason.
    BindFailedOther,
    /// The process-instance counter reported this many running instances of
    /// the current executable (the counting process itself included).
    InstanceCount(usize),
    /// The stale endpoint file was deleted.
    DeleteSucceeded,
    /// Deleting the stale endpoint file failed.
    DeleteFailed,
}

/// What the host must do next for a given state.
#[derive(Clone, Copy, Debug, PartialEq, Eq, Structural)]
pub enum BindAction {
    /// Attempt to bind the endpoint name.
    AttemptBind,
    /// Query how many running processes share this executable's name.
    CountInstances,
    /// Warn, then delete the leftover endpoint file.
    DeleteStaleEndpoint,
    /// The listener is bound: start accepting connections.
    AcceptConnections,
    /// Stop and surface the error carried by the state.
    GiveUp,
}

/// The action a state calls for.
pub open spec fn action_of(s: BindState) -> BindAction {
    match s {
        BindState::Start => BindAction::AttemptBind,
        BindState::Conflicted => BindAction::CountInstances,
        BindState::Recovering => BindAction::DeleteStaleEndpoint,
        BindState::Retrying => BindAction::AttemptBind,
        BindState::Bound => BindAction::AcceptConnections,
        BindState::Failed(_) => BindAction::GiveUp,
    }
}

/// How a state advances on an event. An event that does not answer the
/// state's pending action leaves the state unchanged, and the two final
/// states absorb every event.
pub open spec fn bind_step_spec(s: BindState, e: BindEvent) -> BindState {
    match (s, e) {
        (BindState::Start, BindEvent::BindSucceeded) => BindState::Bound,
        (BindState::Start, BindEvent::BindAddrInUse) => BindState::Conflicted,
        (BindState::Start, BindEvent::BindFailedOther) => BindState::Failed(
            IpcServerError::BindError,
        ),
        (BindState::Conflicted, BindEvent::InstanceCount(c)) => if c > 1 {
            BindState::Failed(IpcServerError::AlreadyInUseError)
        } else {
            BindState::Recovering
        },
        (BindState::Recovering, BindEvent::DeleteSucceeded) => BindState::Retrying,
        (BindState::Recovering, BindEvent::DeleteFailed) => BindState::Failed(
            IpcServerError::FileError,
        ),
        (BindState::Retrying, BindEvent::BindSucceeded) => BindState::Bound,
        (BindState::Retrying, BindEvent::BindAddrInUse) => BindState::Failed(
            IpcServerError::BindError,
        ),
        (BindState::Retrying, BindEvent::BindFailedOther) => BindState::Failed(
            IpcServerError::BindError,
        ),
        (_, _) => s,
    }
}

/// The action the host must perform next for a state.
pub fn bind_action(s: BindState) -> (a: BindAction)
    ensures
        a == action_of(s),
{
    match s {
        BindState::Start => BindAction::AttemptBind,
        BindState::Conflicted => BindAction::CountInstances,
        BindState::Recovering => BindAction::DeleteStaleEndpoint,
        BindState::Retrying => BindAction::AttemptBind,
        BindState::Bound => BindAction::AcceptConnections,
        BindState::Failed(_) => BindAction::GiveUp,
    }
}

/// Advance the bind lifecycle by one event.
pub fn bind_step(s: BindState, e: BindEvent) -> (next: BindState)
    ensures
        next == bind_step_spec(s, e),
{
    match (s, e) {
        (BindState::Start, BindEvent::BindSucceeded) => BindState::Bound,
        (BindState::Start, BindEvent::BindAddrInUse) => BindState::Conflicted,
        (BindState::Start, BindEvent::BindFailedOther) => BindState::Failed(
            IpcServerError::BindError,
        ),
        (BindState::Conflicted, BindEvent::InstanceCount(c)) => if c > 1 {
            BindState::Failed(IpcServerError::AlreadyInUseError)
        } else {
            BindState::Recovering
        },
        (BindState::Recovering, BindEvent::DeleteSucceeded) => BindState::Retrying,
        (BindState::Recovering, BindEvent::DeleteFailed) => BindState::Failed(
            IpcServerError::FileError,
        ),
        (BindState::Retrying, BindEvent::BindSucceeded) => BindState::Bound,
        (BindState::Retrying, BindEvent::BindAddrInUse) => BindState::Failed(
            IpcServerError::BindError,
        ),
        (BindState::Retrying, BindEvent::BindFailedOther) => BindState::Failed(
            IpcServerError::BindError,
        ),
        (_, _) => s,
    }
}

/// Whether the lifecycle has ended (successfully or not).
pub open spec fn is_final(s: BindState) -> bool {
    s is Bound || s is Failed
}

/// The state reached by feeding a sequence of events from a starting state.
pub open spec fn run_bind(s: BindState, events: Seq<BindEvent>) -> BindState
    decreases events.len(),
{
    if events.len() == 0 {
        s
    } else {
        run_bind(bind_step_spec(s, events[0]), events.drop_first())
    }
}

/// Whether an event reports the outcome of a file deletion attempt.
pub open spec fn is_delete_event(e: BindEvent) -> bool {
    e is DeleteSucceeded || e is DeleteFailed
}

/// Whether an event reports the outcome of a bind attempt.
pub open spec fn is_bind_event(e: BindEvent) -> bool {
    e is BindSucceeded || e is BindAddrInUse || e is BindFailedOther
}

/// How many file deletions a run performs: one per deletion outcome consumed
/// in the state that demanded the deletion.
pub open spec fn deletions_in_run(s: BindState, events: Seq<BindEvent>) -> nat
    decreases events.len(),
{
    if events.len() == 0 {
        0
    } else {
        (if s is Recovering && is_delete_event(events[0]) {
            1nat
        } else {
            0nat
        }) + deletions_in_run(bind_step_spec(s, events[0]), events.drop_first())
    }
}

/// How many bind attempts a run performs: one per bind outcome consumed in a
/// state that demanded a bind.
pub open spec fn bind_attempts_in_run(s: BindState, events: Seq<BindEvent>) -> nat
    decreases events.len(),
{
    if events.len() == 0 {
        0
    } else {
        (if (s is Start || s is Retrying) && is_bind_event(events[0]) {
            1nat
        } else {
            0nat
        }) + bind_attempts_in_run(bind_step_spec(s, events[0]), events.drop_first())
    }
}

/// A final state absorbs every further event and demands no further bind or
/// deletion: the listener, once bound, owns the endpoint for the process's
/// lifetime, and a failed lifecycle stays failed.
pub proof fn lemma_final_absorbs(s: BindState, events: Seq<BindEvent>)
    requires
        is_final(s),
    ensures
        run_bind(s, events) == s,
        deletions_in_run(s, events) == 0,
        bind_attempts_in_run(s, events) == 0,
    decreases events.len(),
{
    if events.len() > 0 {
        lemma_final_absorbs(s, events.drop_first());
    }
}

/// Idempotent recovery, counted over every possible run: however the host's
/// bind attempts, instance counts and deletions turn out, the lifecycle never
/// attempts more than one file deletion, and never attempts more than two
/// binds (the first attempt and the single retry). From a state past the
/// recovery decision it attempts no deletion at all.
pub proof fn lemma_recovery_attempt_bounds(s: BindState, events: Seq<BindEvent>)
    ensures
        deletions_in_run(s, events) <= 1,
        (s is Retrying || is_final(s)) ==> deletions_in_run(s, events) == 0,
        bind_attempts_in_run(s, events) <= 2,
        (s is Conflicted || s is Recovering || s is Retrying) ==> bind_attempts_in_run(s, events)
            <= 1,
        is_final(s) ==> bind_attempts_in_run(s, events) == 0,
    decreases events.len(),
{
    if events.len() > 0 {
        lemma_recovery_attempt_bounds(bind_step_spec(s, events[0]), events.drop_first());
    }
}

/// Sibling protection: when the first bind finds the address in use and more
/// than one instance of the executable is running, the lifecycle fails with
/// the in-use error, stays failed whatever follows, and never attempts a
/// file deletion or another bind.
pub proof fn lemma_sibling_protection(c: usize, rest: Seq<BindEvent>)
    requires
        c > 1,
    ensures
        ({
            let events = seq![BindEvent::BindAddrInUse, BindEvent::InstanceCount(c)].add(rest);
            run_bind(BindState::Start, events) == BindState::Failed(
                IpcServerError::AlreadyInUseError,
            ) && deletions_in_run(BindState::Start, events) == 0 && bind_attempts_in_run(
                BindState::Start,
                events,
            ) == 1
        }),
{
    let events = seq![BindEvent::BindAddrInUse, BindEvent::InstanceCount(c)].add(rest);
    let s1 = bind_step_spec(BindState::Start, BindEvent::BindAddrInUse);
    let s2 = bind_step_spec(s1, BindEvent::InstanceCount(c));
    let e1 = events.drop_first();
    assert(events[0] == BindEvent::BindAddrInUse);
    assert(e1 =~= seq![BindEvent::InstanceCount(c)].add(rest));
    assert(e1[0] == BindEvent::InstanceCount(c));
    assert(e1.drop_first() =~= rest);
    assert(s2 == BindState::Failed(IpcServerError::AlreadyInUseError));
    assert(run_bind(BindState::Start, events) == run_bind(s1, e1));
    assert(run_bind(s1, e1) == run_bind(s2, rest));
    assert(deletions_in_run(BindState::Start, events) == deletions_in_run(s1, e1));
    assert(deletions_in_run(s1, e1) == deletions_in_run(s2, rest));
    assert(bind_attempts_in_run(BindState::Start, events) == 1 + bind_attempts_in_run(s1, e1));
    assert(bind_attempts_in_run(s1, e1) == bind_attempts_in_run(s2, rest));
    lemma_final_absorbs(s2, rest);
}

/// Stale-socket recovery: when the first bind finds the address in use, no
/// sibling instance is running, the deletion succeeds and the single retry
/// binds, the lifecycle ends bound — after exactly one deletion and exactly
/// two bind attempts, whatever follows.
pub proof fn lemma_stale_recovery(c: usize, rest: Seq<BindEvent>)
    requires
        c <= 1,
    ensures
        ({
            let events = seq![
                BindEvent::BindAddrInUse,
                BindEvent::InstanceCount(c),
                BindEvent::DeleteSucceeded,
                BindEvent::BindSucceeded,
            ].add(rest);
            run_bind(BindState::Start, events) == BindState::Bound && deletions_in_run(
                BindState::Start,
                events,
            ) == 1 && bind_attempts_in_run(BindState::Start, events) == 2
        }),
{
    let events = seq![
        BindEvent::BindAddrInUse,
        BindEvent::InstanceCount(c),
        BindEvent::DeleteSucceeded,
        BindEvent::BindSucceeded,
    ].add(rest);
    let s1 = bind_step_spec(BindState::Start, BindEvent::BindAddrInUse);
    let s2 = bind_step_spec(s1, BindEvent::InstanceCount(c));
    let s3 = bind_step_spec(s2, BindEvent::DeleteSucceeded);
    let s4 = bind_step_spec(s3, BindEvent::BindSucceeded);
    let e1 = events.drop_first();
    let e2 = e1.drop_first();
    let e3 = e2.drop_first();
    assert(events[0] == BindEvent::BindAddrInUse);
    assert(e1 =~= seq![
        BindEvent::InstanceCount(c),
        BindEvent::DeleteSucceeded,
        BindEvent::BindSucceeded,
    ].add(rest));
    assert(e1[0] == BindEvent::InstanceCount(c));
    assert(e2 =~= seq![BindEvent::DeleteSucceeded, BindEvent::BindSucceeded].add(rest));
    assert(e2[0] == BindEvent::DeleteSucceeded);
    assert(e3 =~= seq![BindEvent::BindSucceeded].add(rest));
    assert(e3[0] == BindEvent::BindSucceeded);
    assert(e3.drop_first() =~= rest);
    assert(s2 == BindState::Recovering);
    assert(s4 == BindState::Bound);
    assert(run_bind(BindState::Start, events) == run_bind(s1, e1));
    assert(run_bind(s1, e1) == run_bind(s2, e2));
    assert(run_bind(s2, e2) == run_bind(s3, e3));
    assert(run_bind(s3, e3) == run_bind(s4, rest));
    assert(deletions_in_run(BindState::Start, events) == deletions_in_run(s1, e1));
    assert(deletions_in_run(s1, e1) == deletions_in_run(s2, e2));
    assert(deletions_in_run(s2, e2) == 1 + deletions_in_run(s3, e3));
    assert(deletions_in_run(s3, e3) == deletions_in_run(s4, rest));
    assert(bind_attempts_in_run(BindState::Start, events) == 1 + bind_attempts_in_run(s1, e1));
    assert(bind_attempts_in_run(s1, e1) == bind_attempts_in_run(s2, e2));
    assert(bind_attempts_in_run(s2, e2) == bind_attempts_in_run(s3, e3));
    assert(bind_attempts_in_run(s3, e3) == 1 + bind_attempts_in_run(s4, rest));
    lemma_final_absorbs(s4, rest);
}

} // verus!
