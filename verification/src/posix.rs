//! The POSIX backend: a thread CPU-time clock identified by a small integer
//! clock id, read through the generic time-retrieval kernel call.

use vstd::prelude::*;
use crate::duration::{Duration, NANOS_PER_SEC};
use crate::error::OSError;
use crate::OSClock;

verus! {

/// A handle on one thread's CPU-time clock: the kernel clock identifier.
#[derive(Clone, Copy, Debug)]
pub struct PosixClock {
    clockid: i32,
}

/// What one completed POSIX read yields: a kernel failure is surfaced
/// verbatim as an `OSError`; a seconds-plus-nanoseconds sample becomes the
/// duration with those parts.
pub open spec fn spec_posix_read(raw: Result<(i64, i64), i32>) -> Result<Duration, OSError> {
    match raw {
        Ok(sn) => Ok(Duration { secs: sn.0 as u64, nanos: sn.1 as u32 }),
        Err(code) => Err(OSError { code }),
    }
}

/// Convert a kernel timespec (whole seconds, nanosecond remainder) into a
/// duration with exactly that total.
pub fn duration_from_timespec(sec: i64, nsec: i64) -> (d: Duration)
    requires
        0 <= sec,
        0 <= nsec < NANOS_PER_SEC,
    ensures
        d.secs == sec,
        d.nanos == nsec,
        d.wf(),
        d.total_nanos() == sec * (NANOS_PER_SEC as int) + nsec,
{
    Duration::new(sec as u64, nsec as u32)
}

/// Turn one raw kernel answer into the interface's result: the error code
/// passes through unchanged, a sample becomes a duration, and nothing else
/// ever comes back.
pub fn posix_read_outcome(raw: Result<(i64, i64), i32>) -> (r: Result<Duration, OSError>)
    requires
        raw matches Ok(sn) ==> 0 <= sn.0 && 0 <= sn.1 < NANOS_PER_SEC,
    ensures
        r == spec_posix_read(raw),
        r matches Ok(d) ==> d.wf(),
{
    match raw {
        Ok((sec, nsec)) => Ok(duration_from_timespec(sec, nsec)),
        Err(code) => Err(OSError::from_code(code)),
    }
}

/// Relies on nix::time::clock_gettime: reads the kernel clock named by
/// `clockid` and returns its current value as whole seconds plus a
/// nanosecond remainder in [0, 1_000_000_000); a CPU-time reading counts
/// time consumed since the thread started and is never negative. A nonzero
/// kernel status comes back as the raw error code.
#[verifier::external_body]
fn kernel_clock_gettime(clockid: i32) -> (r: Result<(i64, i64), i32>)
    ensures
        r matches Ok(sn) ==> 0 <= sn.0 && 0 <= sn.1 < NANOS_PER_SEC,
{
    match nix::time::clock_gettime(nix::time::ClockId::from_raw(clockid)) {
        Ok(ts) => Ok((ts.tv_sec(), ts.tv_nsec())),
        Err(e) => Err(e as i32),
    }
}

/// The target's clock identifier for "CPU time of the calling thread": one
/// compile-time constant of the platform. (The parameter is formal; the
/// identifier does not vary.)
pub uninterp spec fn thread_cpu_clockid(tag: bool) -> i32;

/// Relies on nix::time::ClockId::CLOCK_THREAD_CPUTIME_ID: the kernel's
/// clock identifier for the CPU time of the calling thread, a compile-time
/// constant of the target, named `thread_cpu_clockid` here.
#[verifier::external_body]
fn current_thread_cpu_clockid() -> (r: i32)
    ensures
        r == thread_cpu_clockid(true),
{
    nix::time::ClockId::CLOCK_THREAD_CPUTIME_ID.as_raw()
}

impl PosixClock {
    /// The stored kernel clock identifier.
    pub closed spec fn id(self) -> int {
        self.clockid as int
    }

    /// Wrap a kernel clock identifier. Whether the identifier still names a
    /// live clock is the kernel's to judge, at each read.
    pub fn from_clockid(clockid: i32) -> (c: PosixClock)
        ensures
            c.id() == clockid,
    {
        PosixClock { clockid }
    }

    /// The wrapped kernel clock identifier.
    pub fn clockid(&self) -> (id: i32)
        ensures
            id == self.id(),
    {
        self.clockid
    }
}

impl OSClock for PosixClock {
    fn get_time(&self) -> (r: Result<Duration, OSError>) {
        posix_read_outcome(kernel_clock_gettime(self.clockid))
    }
}

/// The POSIX resolver: a clock handle for the CPU time of the calling
/// thread, carrying exactly the target's thread-CPU clock identifier. This
/// identifier resolves to the reading thread's own accounting, so the handle
/// must be read from the thread it was obtained for; the kernel translation
/// that binds an identifier to one fixed thread needs a raw pthread call,
/// whose outcome `posix_resolve_outcome` takes.
pub fn cpu_clock_for_current_thread() -> (r: Result<PosixClock, OSError>)
    ensures
        r matches Ok(c) && c.id() == thread_cpu_clockid(true),
{
    Ok(PosixClock { clockid: current_thread_cpu_clockid() })
}

/// The resolution outcome: the kernel's answer to "translate the calling
/// thread into a clock identifier" becomes a handle on exactly that clock,
/// or surfaces the kernel's error code verbatim.
pub fn posix_resolve_outcome(raw: Result<i32, i32>) -> (r: Result<PosixClock, OSError>)
    ensures
        raw matches Ok(id) ==> r matches Ok(c) && c.id() == id,
        raw matches Err(code) ==> r matches Err(e) && e.code == code,
{
    match raw {
        Ok(id) => Ok(PosixClock { clockid: id }),
        Err(code) => Err(OSError::from_code(code)),
    }
}

/// A later timespec sample never has a smaller nanosecond total: the
/// conversion to a single total preserves the (seconds, nanoseconds) order.
pub proof fn lemma_timespec_monotonic(s1: i64, n1: i64, s2: i64, n2: i64)
    requires
        0 <= s1,
        0 <= n1 < NANOS_PER_SEC,
        0 <= s2,
        0 <= n2 < NANOS_PER_SEC,
        s1 < s2 || (s1 == s2 && n1 <= n2),
    ensures
        s1 * (NANOS_PER_SEC as int) + n1 <= s2 * (NANOS_PER_SEC as int) + n2,
{
    if s1 < s2 {
        vstd::arithmetic::mul::lemma_mul_inequality(
            s1 as int + 1,
            s2 as int,
            NANOS_PER_SEC as int,
        );
    }
}

/// Monotonicity through the POSIX backend: of two in-range kernel samples
/// taken in order, the later read's duration never has the smaller total.
pub proof fn lemma_posix_reads_monotonic(s1: i64, n1: i64, s2: i64, n2: i64)
    requires
        0 <= s1,
        0 <= n1 < NANOS_PER_SEC,
        0 <= s2,
        0 <= n2 < NANOS_PER_SEC,
        s1 < s2 || (s1 == s2 && n1 <= n2),
    ensures
        spec_posix_read(Ok((s1, n1))) matches Ok(d1) && d1.wf(),
        spec_posix_read(Ok((s2, n2))) matches Ok(d2) && d2.wf(),
        spec_posix_read(Ok((s1, n1)))->Ok_0.total_nanos()
            <= spec_posix_read(Ok((s2, n2)))->Ok_0.total_nanos(),
{
    lemma_timespec_monotonic(s1, n1, s2, n2);
}

} // verus!
