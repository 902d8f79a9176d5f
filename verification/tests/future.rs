use tokio_retry::strategy::DelaySequence;
use tokio_retry::strategy::FixedInterval;
use tokio_retry::RetryCondition;
use tokio_retry::RetryDriver;
use tokio_retry::RetryError;
use tokio_retry::RetryStep;

/// Runs a whole retry campaign with an instantly elapsing timer, invoking
/// `op` once per attempt as the driver asks for it.
fn drive<S, C, F, I>(mut driver: RetryDriver<S, C>, mut op: F) -> Result<I, RetryError<u64, u8>>
where
    S: DelaySequence,
    C: RetryCondition<u64>,
    F: FnMut() -> Result<I, u64>,
{
    let mut step = driver.on_operation_result::<I, u64, u8>(op());
    loop {
        match step {
            RetryStep::StartSleep(_delay) => {
                driver.on_timer_elapsed();
                step = driver.on_operation_result::<I, u64, u8>(op());
            }
            RetryStep::Finished(result) => return result,
        }
    }
}

#[test]
fn attempts_just_once() {
    let mut num_calls = 0;
    let res = drive(RetryDriver::spawn(FixedInterval::from_millis(100).take(0)), || {
        num_calls += 1;
        Err::<(), u64>(42)
    });

    assert_eq!(res, Err(RetryError::OperationError(42)));
    assert_eq!(num_calls, 1);
}

#[test]
fn attempts_until_max_retries_exceeded() {
    let s = FixedInterval::from_millis(100).take(2);
    let mut num_calls = 0;
    let res = drive(RetryDriver::spawn(s), || {
        num_calls += 1;
        Err::<(), u64>(42)
    });

    assert_eq!(res, Err(RetryError::OperationError(42)));
    assert_eq!(num_calls, 3);
}

#[test]
fn attempts_until_success() {
    let s = FixedInterval::from_millis(100);
    let mut num_calls = 0;
    let res = drive(RetryDriver::spawn(s), || {
        num_calls += 1;
        if num_calls < 4 {
            Err::<(), u64>(42)
        } else {
            Ok::<(), u64>(())
        }
    });

    assert_eq!(res, Ok(()));
    assert_eq!(num_calls, 4);
}

#[test]
fn attempts_retry_only_if_given_condition_is_true() {
    let s = FixedInterval::from_millis(100).take(5);
    let mut num_calls: u64 = 0;
    let res = drive(
        RetryDriver::spawn_conditionally(s, tokio_retry::BelowThreshold { bound: 3 }),
        || {
            let previous = num_calls;
            num_calls += 1;
            Err::<(), u64>(previous + 1)
        },
    );

    assert_eq!(res, Err(RetryError::OperationError(3)));
    assert_eq!(num_calls, 3);
}

#[test]
fn future_attempts_just_once() {
    let mut num_calls = 0;
    let res = drive(RetryDriver::spawn(FixedInterval::from_millis(100).take(0)), || {
        num_calls += 1;
        Err::<(), u64>(42)
    });

    assert_eq!(res, Err(RetryError::OperationError(42)));
    assert_eq!(num_calls, 1);
}

#[test]
fn future_attempts_until_max_retries_exceeded() {
    let s = FixedInterval::from_millis(100).take(2);
    let mut num_calls = 0;
    let res = drive(RetryDriver::spawn(s), || {
        num_calls += 1;
        Err::<(), u64>(42)
    });

    assert_eq!(res, Err(RetryError::OperationError(42)));
    assert_eq!(num_calls, 3);
}

#[test]
fn future_attempts_until_success() {
    let s = FixedInterval::from_millis(100);
    let mut num_calls = 0;
    let res = drive(RetryDriver::spawn(s), || {
        num_calls += 1;
        if num_calls < 4 {
            Err::<(), u64>(42)
        } else {
            Ok::<(), u64>(())
        }
    });

    assert_eq!(res, Ok(()));
    assert_eq!(num_calls, 4);
}

#[test]
fn timer_failure_is_immediately_terminal() {
    let mut driver = RetryDriver::spawn(FixedInterval::from_millis(100).take(5));
    let mut num_calls = 0;

    num_calls += 1;
    let step = driver.on_operation_result::<(), u64, u8>(Err(42));
    assert!(matches!(step, RetryStep::StartSleep(_)));

    let step = driver.on_timer_failure::<(), u64, u8>(7);
    match step {
        RetryStep::Finished(Err(RetryError::TimerError(err))) => assert_eq!(err, 7),
        _ => panic!("expected a terminal timer error"),
    }
    assert_eq!(num_calls, 1);
}

#[test]
fn timer_errors_never_compare_equal() {
    let left: RetryError<u64, u8> = RetryError::OperationError(42);
    let right: RetryError<u64, u8> = RetryError::OperationError(42);
    assert_eq!(left, right);

    let other: RetryError<u64, u8> = RetryError::OperationError(41);
    assert_ne!(left, other);

    let timer: RetryError<u64, u8> = RetryError::TimerError(7);
    let same_timer: RetryError<u64, u8> = RetryError::TimerError(7);
    assert_ne!(timer, same_timer);
    assert_ne!(left, timer);
}
