use ipc_util::{bind_action, bind_step, BindAction, BindEvent, BindState, IpcServerError};

#[test]
fn first_bind_success_goes_straight_to_bound() {
    let s = BindState::Start;
    assert_eq!(bind_action(s), BindAction::AttemptBind);
    let s = bind_step(s, BindEvent::BindSucceeded);
    assert_eq!(s, BindState::Bound);
    assert_eq!(bind_action(s), BindAction::AcceptConnections);
}

#[test]
fn stale_recovery_deletes_once_and_retries_once() {
    let mut deletions = 0;
    let mut bind_attempts = 0;

    let mut s = BindState::Start;
    assert_eq!(bind_action(s), BindAction::AttemptBind);
    bind_attempts += 1;
    s = bind_step(s, BindEvent::BindAddrInUse);

    assert_eq!(bind_action(s), BindAction::CountInstances);
    s = bind_step(s, BindEvent::InstanceCount(1));

    assert_eq!(bind_action(s), BindAction::DeleteStaleEndpoint);
    deletions += 1;
    s = bind_step(s, BindEvent::DeleteSucceeded);

    assert_eq!(bind_action(s), BindAction::AttemptBind);
    bind_attempts += 1;
    s = bind_step(s, BindEvent::BindSucceeded);

    assert_eq!(s, BindState::Bound);
    assert_eq!(deletions, 1);
    assert_eq!(bind_attempts, 2);
}

#[test]
fn sibling_holding_endpoint_fails_without_deletion() {
    let mut s = BindState::Start;
    s = bind_step(s, BindEvent::BindAddrInUse);
    assert_eq!(bind_action(s), BindAction::CountInstances);
    s = bind_step(s, BindEvent::InstanceCount(2));
    assert_eq!(s, BindState::Failed(IpcServerError::AlreadyInUseError));
    // The failed state demands giving up, never a deletion.
    assert_eq!(bind_action(s), BindAction::GiveUp);
}

#[test]
fn failed_deletion_is_file_error() {
    let mut s = BindState::Start;
    s = bind_step(s, BindEvent::BindAddrInUse);
    s = bind_step(s, BindEvent::InstanceCount(0));
    assert_eq!(bind_action(s), BindAction::DeleteStaleEndpoint);
    s = bind_step(s, BindEvent::DeleteFailed);
    assert_eq!(s, BindState::Failed(IpcServerError::FileError));
}

#[test]
fn failed_retry_is_bind_error() {
    let mut s = BindState::Start;
    s = bind_step(s, BindEvent::BindAddrInUse);
    s = bind_step(s, BindEvent::InstanceCount(1));
    s = bind_step(s, BindEvent::DeleteSucceeded);
    assert_eq!(bind_action(s), BindAction::AttemptBind);
    s = bind_step(s, BindEvent::BindAddrInUse);
    assert_eq!(s, BindState::Failed(IpcServerError::BindError));

    let mut t = BindState::Retrying;
    t = bind_step(t, BindEvent::BindFailedOther);
    assert_eq!(t, BindState::Failed(IpcServerError::BindError));
}

#[test]
fn other_first_bind_failure_is_bind_error() {
    let s = bind_step(BindState::Start, BindEvent::BindFailedOther);
    assert_eq!(s, BindState::Failed(IpcServerError::BindError));
}

#[test]
fn final_states_absorb_events() {
    let bound = BindState::Bound;
    assert_eq!(bind_step(bound, BindEvent::BindAddrInUse), bound);
    assert_eq!(bind_step(bound, BindEvent::DeleteSucceeded), bound);
    let failed = BindState::Failed(IpcServerError::AlreadyInUseError);
    assert_eq!(bind_step(failed, BindEvent::BindSucceeded), failed);
    assert_eq!(bind_step(failed, BindEvent::InstanceCount(0)), failed);
}
