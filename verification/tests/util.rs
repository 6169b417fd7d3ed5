use macrodeck::util::{retry, should_retry};

#[test]
fn retry_stops_at_the_first_success() {
    let mut calls = 0;
    let r: Result<u32, &str> = retry(
        || {
            calls += 1;
            if calls < 4 {
                Err("busy")
            } else {
                Ok(calls)
            }
        },
        10,
    );
    assert_eq!(r, Ok(4));
    assert_eq!(calls, 4);
}

#[test]
fn retry_gives_up_after_its_retries() {
    let mut calls = 0;
    let r: Result<(), u32> = retry(
        || {
            calls += 1;
            Err(calls)
        },
        3,
    );
    assert_eq!(r, Err(4));
    assert_eq!(calls, 4);
}

#[test]
fn retry_without_retries_calls_once() {
    let mut calls = 0;
    let r: Result<(), ()> = retry(
        || {
            calls += 1;
            Err(())
        },
        0,
    );
    assert_eq!(r, Err(()));
    assert_eq!(calls, 1);
    let r: Result<u8, ()> = retry(|| Ok(1), 0);
    assert_eq!(r, Ok(1));
}

#[test]
fn should_retry_needs_a_failure_and_a_try() {
    assert!(should_retry::<(), ()>(&Err(()), 1));
    assert!(!should_retry::<(), ()>(&Err(()), 0));
    assert!(!should_retry::<(), ()>(&Ok(()), 5));
    assert!(!should_retry::<(), ()>(&Ok(()), 0));
}
