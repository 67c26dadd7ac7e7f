use pool_bridge::{AcquireError, ChannelPhase, ResultChannel, TryRead};

#[test]
fn read_before_write_reports_empty() {
    let mut c: ResultChannel<u32> = ResultChannel::new();
    assert_eq!(c.phase(), ChannelPhase::Empty);
    assert!(matches!(c.try_read(), TryRead::Empty));
    assert!(matches!(c.try_read(), TryRead::Empty));
    assert_eq!(c.phase(), ChannelPhase::Empty);
}

#[test]
fn write_then_reads_deliver_exactly_once() {
    let mut c: ResultChannel<u32> = ResultChannel::new();
    assert!(c.write(Ok(7)).is_ok());
    assert_eq!(c.phase(), ChannelPhase::Filled);
    assert!(matches!(c.try_read(), TryRead::Value(Ok(7))));
    assert_eq!(c.phase(), ChannelPhase::Consumed);
    assert!(matches!(c.try_read(), TryRead::Consumed));
    assert!(matches!(c.try_read(), TryRead::Consumed));
}

#[test]
fn error_outcome_crosses_the_channel() {
    let mut c: ResultChannel<u32> = ResultChannel::new();
    assert!(c.write(Err(AcquireError::AcquireFailed)).is_ok());
    assert!(matches!(
        c.try_read(),
        TryRead::Value(Err(AcquireError::AcquireFailed))
    ));
}

#[test]
fn second_write_is_rejected_and_handed_back() {
    let mut c: ResultChannel<u32> = ResultChannel::new();
    assert!(c.write(Ok(1)).is_ok());
    match c.write(Ok(2)) {
        Err(Ok(2)) => {}
        _ => panic!("a second write must be rejected, handing the outcome back"),
    }
    assert!(matches!(c.try_read(), TryRead::Value(Ok(1))));
}

#[test]
fn write_after_consumption_is_rejected() {
    let mut c: ResultChannel<u32> = ResultChannel::new();
    assert!(c.write(Ok(3)).is_ok());
    assert!(matches!(c.try_read(), TryRead::Value(Ok(3))));
    match c.write(Ok(4)) {
        Err(Ok(4)) => {}
        _ => panic!("a write into a consumed channel must be rejected"),
    }
    assert_eq!(c.phase(), ChannelPhase::Consumed);
}

#[test]
fn unread_write_succeeds_and_is_discarded() {
    let mut c: ResultChannel<u32> = ResultChannel::new();
    assert!(c.write(Ok(9)).is_ok());
    drop(c);
}
