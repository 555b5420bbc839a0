//! A CPU-time clock for the calling thread.
//!
//! The library exposes one capability: read the CPU time consumed by a
//! single thread, as a `Duration`, through the `OSClock` interface.

use vstd::prelude::*;

mod duration;
mod error;
pub mod mach;
pub mod posix;

pub use duration::{Duration, NANOS_PER_SEC};
pub use error::OSError;
pub use mach::{MachClock, TimeBase};
pub use posix::{cpu_clock_for_current_thread, PosixClock};

verus! {

/// The unified clock interface: one fallible read of elapsed CPU time.
pub trait OSClock: Sized + Send {
    fn get_time(&self) -> (r: Result<Duration, OSError>)
        ensures
            r matches Ok(d) ==> d.wf(),
    ;
}

/// The clock type this build compiles in: on this target, the POSIX thread
/// CPU-time clock.
pub type ThreadCPUClock = posix::PosixClock;

/// The entry point: a clock for the CPU time of the calling thread, through
/// the compiled-in backend.
pub fn clock_for_current_thread() -> (r: Result<ThreadCPUClock, OSError>)
    ensures
        r matches Ok(c) && c.id() == posix::thread_cpu_clockid(true),
{
    posix::cpu_clock_for_current_thread()
}

/// Both backends share one error taxonomy: a kernel failure with a given
/// code surfaces as the same `OSError` on either read path.
pub proof fn lemma_error_taxonomy_shared(tb: mach::TimeBase, code: i32)
    ensures
        posix::spec_posix_read(Err(code)) matches Err(e) && e.code == code,
        mach::spec_mach_read(tb, Err(code)) matches Err(e) && e.code == code,
        posix::spec_posix_read(Err(code))->Err_0 == mach::spec_mach_read(tb, Err(code))->Err_0,
{
}

} // verus!
