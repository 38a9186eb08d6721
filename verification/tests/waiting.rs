use copoll::epoll::{after_wait, budget_millis, elapsed_millis, next_timeout, outcome_of};
use copoll::epoll::{Step, MAX_EVENTS, NANOS_PER_MILLI, WAIT_FOREVER};
use copoll::error::{Cause, Operation};
use copoll::{Error, Event, NativeEvent, Readiness, Token};

#[test]
fn next_timeout_without_limit_is_minus_one() {
    assert_eq!(WAIT_FOREVER, -1);
    assert_eq!(next_timeout(None, 0), -1);
    assert_eq!(next_timeout(None, 123_456), -1);
    assert_eq!(next_timeout(None, u128::MAX), -1);
}

#[test]
fn next_timeout_is_what_is_left() {
    assert_eq!(next_timeout(Some(1000), 0), 1000);
    assert_eq!(next_timeout(Some(1000), 250), 750);
    assert_eq!(next_timeout(Some(1000), 999), 1);
    assert_eq!(next_timeout(Some(1), 0), 1);
}

#[test]
fn next_timeout_is_zero_once_spent() {
    assert_eq!(next_timeout(Some(0), 0), 0);
    assert_eq!(next_timeout(Some(1000), 1000), 0);
    assert_eq!(next_timeout(Some(1000), 5000), 0);
    assert_eq!(next_timeout(Some(0), u128::MAX), 0);
}

#[test]
fn next_timeout_is_capped_at_the_native_width() {
    assert_eq!(next_timeout(Some(2_147_483_647), 0), 2_147_483_647);
    assert_eq!(next_timeout(Some(2_147_483_648), 0), 2_147_483_647);
    assert_eq!(next_timeout(Some(2_147_483_648), 1), 2_147_483_647);
    assert_eq!(next_timeout(Some(2_147_483_648), 2), 2_147_483_646);
    assert_eq!(next_timeout(Some(u128::MAX), 0), i32::MAX);
}

fn buffer() -> Vec<NativeEvent> {
    vec![
        NativeEvent { flags: 0x001, data: 7 },
        NativeEvent { flags: 0x00c, data: 8 },
        NativeEvent { flags: 0, data: 0 },
    ]
}

#[test]
fn after_wait_delivers_events_decoded() {
    let expected = vec![
        Event {
            token: Token(7),
            readiness: Readiness { readable: true, writable: false, error: false },
        },
        Event {
            token: Token(8),
            readiness: Readiness { readable: false, writable: true, error: true },
        },
    ];
    assert_eq!(after_wait(1000, Ok((buffer(), 2))), Step::Deliver(expected.clone()));
    assert_eq!(after_wait(0, Ok((buffer(), 2))), Step::Deliver(expected.clone()));
    assert_eq!(after_wait(-1, Ok((buffer(), 2))), Step::Deliver(expected));
}

#[test]
fn after_wait_delivers_the_filled_part_only() {
    let first = vec![Event {
        token: Token(7),
        readiness: Readiness { readable: true, writable: false, error: false },
    }];
    assert_eq!(after_wait(1000, Ok((buffer(), 1))), Step::Deliver(first));
}

#[test]
fn after_wait_delivers_empty_only_from_a_wait_that_did_not_block() {
    assert_eq!(after_wait(0, Ok((buffer(), 0))), Step::Deliver(Vec::new()));
    assert_eq!(after_wait(0, Ok((Vec::new(), 0))), Step::Deliver(Vec::new()));
    assert_eq!(after_wait(1, Ok((buffer(), 0))), Step::Again);
    assert_eq!(after_wait(i32::MAX, Ok((buffer(), 0))), Step::Again);
    assert_eq!(after_wait(-1, Ok((buffer(), 0))), Step::Again);
}

#[test]
fn after_wait_repeats_an_interrupted_wait() {
    assert_eq!(after_wait(-1, Err(Cause::Interrupted)), Step::Again);
    assert_eq!(after_wait(0, Err(Cause::Interrupted)), Step::Again);
    assert_eq!(after_wait(500, Err(Cause::Interrupted)), Step::Again);
}

#[test]
fn after_wait_reports_other_failures() {
    assert_eq!(after_wait(10, Err(Cause::BadDescriptor)), Step::Fail(Error::InvalidDescriptor));
    assert_eq!(after_wait(10, Err(Cause::InvalidArgument)), Step::Fail(Error::InvalidDescriptor));
    assert_eq!(after_wait(10, Err(Cause::Other)), Step::Fail(Error::SystemResource));
    assert_eq!(after_wait(10, Err(Cause::NotImplemented)), Step::Fail(Error::SystemResource));
    assert_eq!(after_wait(10, Err(Cause::Exists)), Step::Fail(Error::SystemResource));
    assert_eq!(after_wait(10, Err(Cause::NoEntry)), Step::Fail(Error::SystemResource));
}

#[test]
fn outcome_of_sorts_failures() {
    assert_eq!(outcome_of(Operation::Add, Ok(())), Ok(()));
    assert_eq!(outcome_of(Operation::Add, Err(Cause::Exists)), Err(Error::AlreadyRegistered));
    assert_eq!(outcome_of(Operation::Modify, Err(Cause::NoEntry)), Err(Error::NotRegistered));
    assert_eq!(outcome_of(Operation::Delete, Err(Cause::NoEntry)), Err(Error::NotRegistered));
    assert_eq!(outcome_of(Operation::Add, Err(Cause::NotPermitted)), Err(Error::InvalidDescriptor));
    assert_eq!(outcome_of(Operation::Add, Err(Cause::Other)), Err(Error::SystemResource));
    assert_eq!(outcome_of(Operation::Add, Err(Cause::NoEntry)), Err(Error::SystemResource));
    assert_eq!(outcome_of(Operation::Modify, Err(Cause::Exists)), Err(Error::SystemResource));
    assert_eq!(outcome_of(Operation::Delete, Err(Cause::Exists)), Err(Error::SystemResource));
}

#[test]
fn outcome_of_tolerates_removing_a_closed_descriptor() {
    assert_eq!(outcome_of(Operation::Delete, Err(Cause::BadDescriptor)), Ok(()));
    assert_eq!(
        outcome_of(Operation::Delete, Err(Cause::InvalidArgument)),
        Err(Error::InvalidDescriptor)
    );
    assert_eq!(outcome_of(Operation::Add, Err(Cause::BadDescriptor)), Err(Error::InvalidDescriptor));
    assert_eq!(
        outcome_of(Operation::Modify, Err(Cause::BadDescriptor)),
        Err(Error::InvalidDescriptor)
    );
}

#[test]
fn batch_size_is_thirty_two() {
    assert_eq!(MAX_EVENTS, 32);
}

#[test]
fn budget_is_rounded_up_to_whole_milliseconds() {
    assert_eq!(NANOS_PER_MILLI, 1_000_000);
    assert_eq!(budget_millis(0), 0);
    assert_eq!(budget_millis(1), 1);
    assert_eq!(budget_millis(999_999), 1);
    assert_eq!(budget_millis(1_000_000), 1);
    assert_eq!(budget_millis(1_000_001), 2);
    assert_eq!(budget_millis(1_500_000), 2);
    assert_eq!(budget_millis(2_000_000_000), 2000);
    assert_eq!(budget_millis(u128::MAX), u128::MAX / 1_000_000 + 1);
}

#[test]
fn elapsed_time_is_rounded_down_to_whole_milliseconds() {
    assert_eq!(elapsed_millis(0), 0);
    assert_eq!(elapsed_millis(999_999), 0);
    assert_eq!(elapsed_millis(1_000_000), 1);
    assert_eq!(elapsed_millis(1_999_999), 1);
    assert_eq!(elapsed_millis(2_000_000), 2);
    assert_eq!(elapsed_millis(u128::MAX), u128::MAX / 1_000_000);
}

#[test]
fn a_wait_is_not_given_up_before_the_timeout() {
    let timeout_nanos: u128 = 1_500_000;
    for elapsed_nanos in [0u128, 1, 999_999, 1_000_000, 1_499_999] {
        let left = next_timeout(Some(budget_millis(timeout_nanos)), elapsed_millis(elapsed_nanos));
        assert!(left > 0);
    }
    assert_eq!(next_timeout(Some(budget_millis(timeout_nanos)), elapsed_millis(2_000_000)), 0);
}
