use os_clock::posix::posix_resolve_outcome;
use os_clock::{clock_for_current_thread, OSClock, PosixClock};

#[test]
fn valid_measurement() {
    let clock = clock_for_current_thread().unwrap();

    let mut samples = std::iter::repeat::<()>(())
        .map(|_| clock.get_time().unwrap())
        .step_by(50000);

    let mut last_time = samples.next().unwrap();

    let samples = samples
        .take(5)
        .map(|this_time| {
            assert!(this_time > last_time);
            let diff = (this_time.as_nanos() - last_time.as_nanos()) as f64 / 1e9;
            last_time = this_time;
            diff
        })
        .collect::<Vec<f64>>();

    let avg = samples.iter().sum::<f64>() / (samples.len() as f64);

    let mean_abs_dev_scaled = samples
        .iter()
        .map(|sample| (sample - avg).abs())
        .sum::<f64>()
        / (samples.len() as f64)
        / avg;

    println!(
        "
durations of timing 50000 samples
==================================
{:#?}
----------------------------------
avg: {}, mad scaled: {}",
        samples, avg, mean_abs_dev_scaled
    );

    assert!(mean_abs_dev_scaled < 0.1); // test that samples are on average within 10% of the mean
}

#[test]
fn resolution_succeeds_for_calling_thread() {
    let resolved = clock_for_current_thread();
    assert!(resolved.is_ok());
    let clock = resolved.unwrap();
    assert!(clock.get_time().is_ok());
}

#[test]
fn resolved_handle_names_the_thread_cpu_clock() {
    // The handle must name the target's thread-CPU clock, not the wall
    // clock or any other constant.
    let clock = clock_for_current_thread().unwrap();
    assert_eq!(clock.clockid(), libc::CLOCK_THREAD_CPUTIME_ID);
}

#[test]
fn resolve_outcome_keeps_the_kernel_id() {
    let resolved = posix_resolve_outcome(Ok(5));
    assert_eq!(resolved.unwrap().clockid(), 5);
}

#[test]
fn resolve_outcome_keeps_the_kernel_error() {
    let resolved = posix_resolve_outcome(Err(3));
    match resolved {
        Ok(_) => panic!("a failed translation must not yield a handle"),
        Err(e) => assert_eq!(e.code(), 3),
    }
}

#[test]
fn reads_never_decrease() {
    let clock = clock_for_current_thread().unwrap();
    let mut last = clock.get_time().unwrap();
    for _ in 0..1000 {
        let now = clock.get_time().unwrap();
        assert!(now >= last);
        last = now;
    }
}

#[test]
fn invalid_clockid_surfaces_kernel_error() {
    // A clock id the kernel does not know: the read fails with the kernel's
    // error code, never a panic and never a zero duration.
    let clock = PosixClock::from_clockid(123_456_789);
    let read = clock.get_time();
    match read {
        Ok(_) => panic!("an unknown clock id must not yield a reading"),
        Err(e) => assert_eq!(e.code(), libc::EINVAL),
    }
}

// The suite below is written once against the unified interface, so the same
// checks run against any backend that implements it.
fn interface_suite<C: OSClock>(clock: &C) {
    let first = clock.get_time().unwrap();
    let second = clock.get_time().unwrap();
    assert!(second >= first);
}

#[test]
fn interface_suite_passes_on_posix_backend() {
    let clock = clock_for_current_thread().unwrap();
    interface_suite(&clock);
}
