use os_clock::posix::posix_read_outcome;
use os_clock::{Duration, OSError};

#[test]
fn new_keeps_its_parts() {
    let d = Duration::new(3, 250_000_000);
    assert_eq!(d.secs(), 3);
    assert_eq!(d.subsec_nanos(), 250_000_000);
    assert_eq!(d.as_nanos(), 3_250_000_000);
}

#[test]
fn from_total_nanos_splits_exactly() {
    let d = Duration::from_total_nanos(5_000_000_001);
    assert_eq!(d.secs(), 5);
    assert_eq!(d.subsec_nanos(), 1);
    assert_eq!(d, Duration::new(5, 1));

    let zero = Duration::from_total_nanos(0);
    assert_eq!(zero, Duration::new(0, 0));

    let just_under_a_second = Duration::from_total_nanos(999_999_999);
    assert_eq!(just_under_a_second, Duration::new(0, 999_999_999));
}

#[test]
fn largest_duration_round_trips() {
    let max_nanos: u128 = u64::MAX as u128 * 1_000_000_000 + 999_999_999;
    let d = Duration::from_total_nanos(max_nanos);
    assert_eq!(d.secs(), u64::MAX);
    assert_eq!(d.subsec_nanos(), 999_999_999);
    assert_eq!(d.as_nanos(), max_nanos);
}

#[test]
fn order_follows_the_nanosecond_total() {
    assert!(Duration::new(1, 2) > Duration::new(1, 1));
    assert!(Duration::new(2, 0) > Duration::new(1, 999_999_999));
    assert!(Duration::new(0, 5) < Duration::new(1, 0));
    assert!(Duration::new(7, 70) == Duration::new(7, 70));
    assert!(Duration::new(7, 70) >= Duration::new(7, 70));
    assert!(Duration::new(7, 70) != Duration::new(7, 71));
}

#[test]
fn posix_outcome_keeps_sample_parts() {
    let r = posix_read_outcome(Ok((2, 500_000_000)));
    assert_eq!(r.unwrap(), Duration::new(2, 500_000_000));
}

#[test]
fn posix_outcome_keeps_error_code() {
    let r = posix_read_outcome(Err(13));
    match r {
        Ok(_) => panic!("a kernel failure must not yield a reading"),
        Err(e) => {
            assert_eq!(e, OSError::from_code(13));
            assert_eq!(e.code(), 13);
        }
    }
}
