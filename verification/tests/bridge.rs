use pool_bridge::{
    pool_endpoint, AcquireError, AdvanceStatus, BoundedExecutor, Executor, FixedPool,
    InlineExecutor,
};

#[test]
fn available_resource_resolves_with_zero_offload() {
    let mut pool = FixedPool::new(4);
    assert!(pool.release(11u32).is_none());
    let mut ep = pool_endpoint(pool, BoundedExecutor::new(4));
    let mut p = ep.start();
    assert_eq!(ep.advance(&mut p), AdvanceStatus::Resolved);
    assert!(!p.has_offloaded());
    assert_eq!(p.into_outcome(), Ok(11));
    assert_eq!(ep.pool_mut().available_count(), 0);
}

#[test]
fn empty_pool_offloads_exactly_once_and_fails_cleanly() {
    let pool = FixedPool::<u32>::new(1);
    let mut ep = pool_endpoint(pool, BoundedExecutor::new(2));
    let mut p = ep.start();
    assert_eq!(ep.advance(&mut p), AdvanceStatus::Suspended);
    assert!(p.has_offloaded());
    assert_eq!(ep.advance(&mut p), AdvanceStatus::Suspended);
    assert!(p.has_offloaded());
    ep.run_blocking(&mut p);
    assert_eq!(
        ep.advance(&mut p),
        AdvanceStatus::Failed(AcquireError::AcquireFailed)
    );
    assert_eq!(p.into_outcome(), Err(AcquireError::AcquireFailed));
}

#[test]
fn re_advancing_a_terminal_acquisition_is_flagged() {
    let mut pool = FixedPool::new(2);
    assert!(pool.release(1u32).is_none());
    let mut ep = pool_endpoint(pool, BoundedExecutor::new(2));
    let mut p = ep.start();
    assert_eq!(ep.advance(&mut p), AdvanceStatus::Resolved);
    assert_eq!(ep.advance(&mut p), AdvanceStatus::AlreadyTerminal);
    assert_eq!(ep.advance(&mut p), AdvanceStatus::AlreadyTerminal);
    assert!(!p.has_offloaded(), "re-advancing must not re-trigger work");
    assert_eq!(p.into_outcome(), Ok(1));
}

#[test]
fn capacity_one_pool_with_two_concurrent_starts() {
    let pool = FixedPool::<u32>::new(1);
    let mut ep = pool_endpoint(pool, BoundedExecutor::new(2));
    let mut first = ep.start();
    let mut second = ep.start();
    // both were started against an empty pool; now the single resource arrives
    assert!(ep.pool_mut().release(77).is_none());
    // the first resolves on its preflight, with no offload
    assert_eq!(ep.advance(&mut first), AdvanceStatus::Resolved);
    assert!(!first.has_offloaded());
    // the second sees the pool exhausted again and offloads
    assert_eq!(ep.advance(&mut second), AdvanceStatus::Suspended);
    assert!(second.has_offloaded());
    // once the first resource is released back, the blocking work finds it
    let resource = first.into_outcome().unwrap();
    assert_eq!(resource, 77);
    assert!(ep.pool_mut().release(resource).is_none());
    ep.run_blocking(&mut second);
    assert_eq!(ep.advance(&mut second), AdvanceStatus::Resolved);
    assert_eq!(second.into_outcome(), Ok(77));
}

#[test]
fn saturated_executor_fails_rather_than_hanging() {
    let pool = FixedPool::<u32>::new(1);
    let mut ep = pool_endpoint(pool, BoundedExecutor::new(0));
    let mut p = ep.start();
    assert_eq!(
        ep.advance(&mut p),
        AdvanceStatus::Failed(AcquireError::ExecutorSubmissionFailed)
    );
    assert!(p.has_offloaded());
    assert_eq!(p.into_outcome(), Err(AcquireError::ExecutorSubmissionFailed));
}

#[test]
fn disabled_preflight_always_offloads() {
    let mut pool = FixedPool::new(4);
    assert!(pool.release(5u32).is_none());
    let mut ep = pool_endpoint(pool, InlineExecutor::new()).preflight_before_spawn(false);
    let mut p = ep.start();
    assert_eq!(ep.advance(&mut p), AdvanceStatus::Suspended);
    assert!(p.has_offloaded(), "the offload must happen even with a resource available");
    ep.run_blocking(&mut p);
    assert_eq!(ep.advance(&mut p), AdvanceStatus::Resolved);
    assert_eq!(p.into_outcome(), Ok(5));
}

#[test]
fn abandoning_a_suspended_acquisition_is_harmless() {
    let mut pool = FixedPool::new(2);
    assert!(pool.release(3u32).is_none());
    let mut ep = pool_endpoint(pool, InlineExecutor::new()).preflight_before_spawn(false);
    let mut p = ep.start();
    assert_eq!(ep.advance(&mut p), AdvanceStatus::Suspended);
    // the blocking work still runs to completion; its result is discarded
    ep.run_blocking(&mut p);
    drop(p);
    // the bridge keeps working afterwards
    let mut ep = ep.preflight_before_spawn(true);
    assert!(ep.pool_mut().release(4).is_none());
    let mut q = ep.start();
    assert_eq!(ep.advance(&mut q), AdvanceStatus::Resolved);
    assert_eq!(q.into_outcome(), Ok(4));
}

#[test]
fn inline_drive_hands_out_the_available_resource() {
    let mut pool = FixedPool::new(4);
    assert!(pool.release(21u32).is_none());
    let mut ep = pool_endpoint(pool, InlineExecutor::new());
    assert_eq!(ep.acquire_blocking(), Ok(21));
    assert_eq!(ep.acquire_blocking(), Err(AcquireError::AcquireFailed));
}

#[test]
fn inline_drive_with_disabled_preflight_still_delivers() {
    let mut pool = FixedPool::new(4);
    assert!(pool.release(8u32).is_none());
    let mut ep = pool_endpoint(pool, InlineExecutor::new()).preflight_before_spawn(false);
    assert_eq!(ep.acquire_blocking(), Ok(8));
}

#[test]
fn inline_drive_reports_saturation() {
    let pool = FixedPool::<u32>::new(1);
    let mut ep = pool_endpoint(pool, BoundedExecutor::new(0));
    assert_eq!(
        ep.acquire_blocking(),
        Err(AcquireError::ExecutorSubmissionFailed)
    );
}

#[test]
fn one_slot_executor_serializes_offloads() {
    let pool = FixedPool::<u32>::new(1);
    let mut ep = pool_endpoint(pool, BoundedExecutor::new(1));
    // the first offload takes the only slot
    let mut p = ep.start();
    assert_eq!(ep.advance(&mut p), AdvanceStatus::Suspended);
    // a second acquisition cannot be offloaded while the slot is taken
    let mut q = ep.start();
    assert_eq!(
        ep.advance(&mut q),
        AdvanceStatus::Failed(AcquireError::ExecutorSubmissionFailed)
    );
}

#[test]
fn bounded_executor_frees_slots_on_completion() {
    let mut ex = BoundedExecutor::new(1);
    assert_eq!(ex.active_count(), 0);
    assert!(ex.submit());
    assert_eq!(ex.active_count(), 1);
    assert!(!ex.submit(), "no slot is free");
    ex.complete();
    assert_eq!(ex.active_count(), 0);
    assert!(ex.submit());
}

#[test]
fn executor_swap_reaches_the_new_strategy() {
    let pool = FixedPool::<u32>::new(1);
    let ep = pool_endpoint(pool, BoundedExecutor::new(0));
    let mut ep = ep.with_executor(InlineExecutor::new());
    let mut p = ep.start();
    assert_eq!(ep.advance(&mut p), AdvanceStatus::Suspended);
    assert!(p.has_offloaded());
}

#[test]
fn release_beyond_capacity_is_rejected() {
    let mut pool = FixedPool::new(1);
    assert!(pool.release(1u32).is_none());
    assert_eq!(pool.release(2u32), Some(2));
    assert_eq!(pool.available_count(), 1);
}

#[test]
fn builder_returns_a_new_configuration() {
    let pool = FixedPool::<u32>::new(1);
    let ep = pool_endpoint(pool, InlineExecutor::new());
    let mut ep = ep.preflight_before_spawn(false).preflight_before_spawn(true);
    assert!(ep.pool_mut().release(6).is_none());
    let mut p = ep.start();
    assert_eq!(ep.advance(&mut p), AdvanceStatus::Resolved);
    assert_eq!(p.into_outcome(), Ok(6));
}
