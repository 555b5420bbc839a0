//! The Mach-style backend: a thread port queried for a CPU-usage tick
//! count, converted to nanoseconds by a machine-wide scale factor that is
//! fetched at most once and cached in the handle.
//!
//! The kernel calls of this backend exist only on its own operating system,
//! so they cannot be made from here. The backend's logic — resolution,
//! lazy caching of the scale factor, scaling, and error surfacing — takes
//! each kernel answer as an argument; a driver on the target system (or a
//! test double) performs the calls and hands the answers in. For the same
//! reason `MachClock` does not implement `OSClock` itself: `get_time` leaves
//! no argument through which a driver could hand the fresh usage answer in.
//! The read path still returns the interface's exact result and error types,
//! so a suite written against the interface checks it unchanged.

use vstd::prelude::*;
use crate::duration::{spec_duration_of_nanos, Duration};
use crate::error::OSError;

verus! {

/// The machine's tick-to-nanosecond scale factor: a numerator/denominator
/// pair, constant for the machine's uptime.
#[derive(Clone, Copy, Debug, PartialEq, Eq, Structural)]
pub struct TimeBase {
    pub numer: u32,
    pub denom: u32,
}

impl TimeBase {
    /// Well-formed: the denominator divides, so it is nonzero.
    pub open spec fn wf(self) -> bool {
        self.denom != 0
    }
}

/// A tick count scaled to nanoseconds: `ticks * numer / denom`.
pub open spec fn scaled_nanos(ticks: u64, tb: TimeBase) -> int {
    (ticks as int) * (tb.numer as int) / (tb.denom as int)
}

/// What one completed Mach-style read yields under a scale factor: a kernel
/// failure is surfaced verbatim as an `OSError`; a tick count becomes the
/// duration whose total is the scaled count.
pub open spec fn spec_mach_read(tb: TimeBase, usage: Result<u64, i32>) -> Result<
    Duration,
    OSError,
> {
    match usage {
        Ok(ticks) => Ok(spec_duration_of_nanos(scaled_nanos(ticks, tb))),
        Err(code) => Err(OSError { code }),
    }
}

/// A handle on one thread's CPU-time accounting: the kernel thread port,
/// plus the cached scale factor once it has been fetched.
pub struct MachClock {
    port: u64,
    timebase: Option<TimeBase>,
}

impl MachClock {
    /// The stored raw thread port.
    pub closed spec fn port_spec(self) -> u64 {
        self.port
    }

    /// The cached scale factor, if one has been fetched.
    pub closed spec fn timebase_spec(self) -> Option<TimeBase> {
        self.timebase
    }

    /// Whether a scale factor is cached.
    pub open spec fn has_timebase(self) -> bool {
        self.timebase_spec() is Some
    }

    /// Well-formed: a cached scale factor can divide.
    pub open spec fn wf(self) -> bool {
        self.timebase_spec() matches Some(tb) ==> tb.wf()
    }

    /// A clock for the given thread port; no scale factor is cached yet.
    pub fn new(port: u64) -> (c: MachClock)
        ensures
            c.port_spec() == port,
            !c.has_timebase(),
            c.wf(),
    {
        MachClock { port, timebase: None }
    }

    /// The raw thread port this clock queries.
    pub fn port(&self) -> (p: u64)
        ensures
            p == self.port_spec(),
    {
        self.port
    }

    /// Whether the next read must first fetch the machine's scale factor.
    /// Once one is cached, no read ever asks again.
    pub fn needs_timebase(&self) -> (r: bool)
        ensures
            r == !self.has_timebase(),
    {
        self.timebase.is_none()
    }

    /// Store the kernel's answer to the one scale-factor query, or surface
    /// its failure. A clock that already holds a factor never takes another:
    /// the factor is fetched at most once per handle. The factor is constant
    /// for the machine's uptime, so a host that makes several handles should
    /// fetch it once and install the same pair into each, keeping the fetch
    /// to once per process.
    pub fn install_timebase(&mut self, response: Result<(u32, u32), i32>) -> (r: Result<
        (),
        OSError,
    >)
        requires
            !old(self).has_timebase(),
            response matches Ok(nd) ==> nd.1 != 0,
        ensures
            final(self).port_spec() == old(self).port_spec(),
            final(self).wf(),
            response matches Ok(nd) ==> r is Ok && (final(self).timebase_spec() matches Some(tb)
                && tb.numer == nd.0 && tb.denom == nd.1),
            response matches Err(code) ==> r matches Err(e) && e.code == code
                && !final(self).has_timebase(),
    {
        match response {
            Ok((numer, denom)) => {
                self.timebase = Some(TimeBase { numer, denom });
                Ok(())
            },
            Err(code) => Err(OSError::from_code(code)),
        }
    }

    /// Complete one read: the kernel's fresh CPU-usage answer — a tick
    /// count, or a failure — becomes the interface's result under the
    /// cached scale factor. The error code passes through unchanged; a tick
    /// count is scaled to nanoseconds; nothing else ever comes back.
    pub fn complete_read(&self, usage: Result<u64, i32>) -> (r: Result<Duration, OSError>)
        requires
            self.wf(),
            self.has_timebase(),
            usage matches Ok(ticks) ==> scaled_nanos(ticks, self.timebase_spec().unwrap())
                <= Duration::max_total_nanos(),
        ensures
            r == spec_mach_read(self.timebase_spec().unwrap(), usage),
            r matches Ok(d) ==> d.wf(),
    {
        match usage {
            Err(code) => Err(OSError::from_code(code)),
            Ok(ticks) => {
                let tb = self.timebase.unwrap();
                proof {
                    assert((ticks as int) * (tb.numer as int) <= (u64::MAX as int) * (u32::MAX
                        as int)) by {
                        vstd::arithmetic::mul::lemma_mul_inequality(
                            ticks as int,
                            u64::MAX as int,
                            tb.numer as int,
                        );
                        vstd::arithmetic::mul::lemma_mul_inequality(
                            tb.numer as int,
                            u32::MAX as int,
                            u64::MAX as int,
                        );
                    }
                }
                let wide: u128 = (ticks as u128) * (tb.numer as u128) / (tb.denom as u128);
                Ok(Duration::from_total_nanos(wide))
            },
        }
    }
}

/// The Mach-style resolver outcome: the kernel's answer to "a reference to
/// the calling thread" becomes a clock handle with no scale factor cached
/// yet, or surfaces the kernel's error verbatim.
pub fn resolve_mach_clock(thread_port: Result<u64, i32>) -> (r: Result<MachClock, OSError>)
    ensures
        thread_port matches Ok(port) ==> r matches Ok(c) && c.port_spec() == port
            && !c.has_timebase() && c.wf(),
        thread_port matches Err(code) ==> r matches Err(e) && e.code == code,
{
    match thread_port {
        Ok(port) => Ok(MachClock::new(port)),
        Err(code) => Err(OSError::from_code(code)),
    }
}

/// More ticks never scale to fewer nanoseconds.
pub proof fn lemma_scaled_nanos_monotonic(t1: u64, t2: u64, tb: TimeBase)
    requires
        tb.wf(),
        t1 <= t2,
    ensures
        scaled_nanos(t1, tb) <= scaled_nanos(t2, tb),
{
    vstd::arithmetic::mul::lemma_mul_inequality(t1 as int, t2 as int, tb.numer as int);
    vstd::arithmetic::div_mod::lemma_div_is_ordered(
        (t1 as int) * (tb.numer as int),
        (t2 as int) * (tb.numer as int),
        tb.denom as int,
    );
}

/// Monotonicity through the Mach-style backend: of two successful reads
/// under one scale factor, the later tick count's duration never has the
/// smaller total.
pub proof fn lemma_mach_reads_monotonic(tb: TimeBase, t1: u64, t2: u64)
    requires
        tb.wf(),
        t1 <= t2,
        scaled_nanos(t2, tb) <= Duration::max_total_nanos(),
    ensures
        spec_mach_read(tb, Ok(t1)) matches Ok(d1) && d1.wf(),
        spec_mach_read(tb, Ok(t2)) matches Ok(d2) && d2.wf(),
        spec_mach_read(tb, Ok(t1))->Ok_0.total_nanos() <= spec_mach_read(
            tb,
            Ok(t2),
        )->Ok_0.total_nanos(),
{
    lemma_scaled_nanos_monotonic(t1, t2, tb);
    vstd::arithmetic::mul::lemma_mul_nonnegative(t1 as int, tb.numer as int);
    vstd::arithmetic::mul::lemma_mul_nonnegative(t2 as int, tb.numer as int);
    vstd::arithmetic::div_mod::lemma_div_pos_is_pos((t1 as int) * (tb.numer as int), tb.denom as int);
    crate::duration::lemma_duration_of_nanos_total(scaled_nanos(t1, tb));
    crate::duration::lemma_duration_of_nanos_total(scaled_nanos(t2, tb));
}

} // verus!
