use pool_bridge::{AcquireError, AdvanceStatus, PendingAcquisition};

#[test]
fn preflight_hit_resolves_without_offload() {
    let mut p: PendingAcquisition<u32> = PendingAcquisition::new();
    assert!(p.is_not_started());
    assert!(p.note_preflight(Some(42)));
    assert!(p.is_resolved());
    assert!(!p.has_offloaded());
    assert_eq!(p.into_outcome(), Ok(42));
}

#[test]
fn preflight_miss_leaves_it_not_started() {
    let mut p: PendingAcquisition<u32> = PendingAcquisition::new();
    assert!(!p.note_preflight(None));
    assert!(p.is_not_started());
    assert!(!p.has_offloaded());
}

#[test]
fn accepted_submission_suspends() {
    let mut p: PendingAcquisition<u32> = PendingAcquisition::new();
    assert!(!p.note_preflight(None));
    p.note_submission(true);
    assert!(p.is_awaiting());
    assert!(p.has_offloaded());
    assert_eq!(p.poll_outcome(), AdvanceStatus::Suspended);
    assert!(p.is_awaiting());
}

#[test]
fn refused_submission_fails_with_submission_error() {
    let mut p: PendingAcquisition<u32> = PendingAcquisition::new();
    assert!(!p.note_preflight(None));
    p.note_submission(false);
    assert!(p.is_failed());
    assert!(p.has_offloaded());
    assert_eq!(
        p.into_outcome(),
        Err(AcquireError::ExecutorSubmissionFailed)
    );
}

#[test]
fn fulfilled_outcome_is_delivered_once() {
    let mut p: PendingAcquisition<u32> = PendingAcquisition::new();
    p.note_submission(true);
    assert!(p.fulfill(Ok(5)));
    assert!(!p.fulfill(Ok(6)), "a second delivery must be rejected");
    assert_eq!(p.poll_outcome(), AdvanceStatus::Resolved);
    assert_eq!(p.into_outcome(), Ok(5));
}

#[test]
fn task_failure_reaches_the_caller() {
    let mut p: PendingAcquisition<u32> = PendingAcquisition::new();
    p.note_submission(true);
    assert!(p.fulfill(Err(AcquireError::ExecutorTaskFailed)));
    assert_eq!(
        p.poll_outcome(),
        AdvanceStatus::Failed(AcquireError::ExecutorTaskFailed)
    );
    assert_eq!(p.into_outcome(), Err(AcquireError::ExecutorTaskFailed));
}

#[test]
fn fulfill_outside_the_waiting_state_is_rejected() {
    let mut p: PendingAcquisition<u32> = PendingAcquisition::new();
    assert!(!p.fulfill(Ok(1)), "nothing was offloaded yet");
    assert!(p.note_preflight(Some(2)));
    assert!(!p.fulfill(Ok(3)), "already resolved");
    assert_eq!(p.into_outcome(), Ok(2));
}

#[test]
fn abandoned_acquisition_accepts_and_discards_the_result() {
    let mut p: PendingAcquisition<u32> = PendingAcquisition::new();
    p.note_submission(true);
    assert!(p.fulfill(Ok(8)), "a write nobody will read still succeeds");
    drop(p);
}
