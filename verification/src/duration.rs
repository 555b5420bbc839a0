//! A non-negative elapsed-time value: whole seconds plus a nanosecond
//! remainder below one second.

use vstd::prelude::*;
use vstd::arithmetic::div_mod::{lemma_div_is_ordered, lemma_fundamental_div_mod};
use vstd::std_specs::cmp::PartialOrdSpec;
use core::cmp::Ordering;

verus! {

/// Nanoseconds in one second.
pub const NANOS_PER_SEC: u32 = 1_000_000_000;

/// An elapsed CPU time: `secs` whole seconds plus `nanos` nanoseconds,
/// with `nanos` kept below one second.
#[derive(Clone, Copy, Debug)]
pub struct Duration {
    pub secs: u64,
    pub nanos: u32,
}

/// The duration whose nanosecond total is `n`, split into whole seconds
/// and a remainder.
pub open spec fn spec_duration_of_nanos(n: int) -> Duration {
    Duration {
        secs: (n / (NANOS_PER_SEC as int)) as u64,
        nanos: (n % (NANOS_PER_SEC as int)) as u32,
    }
}

impl Duration {
    /// Well-formed: the fractional part is less than one second.
    pub open spec fn wf(self) -> bool {
        self.nanos < NANOS_PER_SEC
    }

    /// The value as a whole count of nanoseconds.
    pub open spec fn total_nanos(self) -> int {
        self.secs * (NANOS_PER_SEC as int) + self.nanos
    }

    /// The largest nanosecond total a `Duration` can hold.
    pub open spec fn max_total_nanos() -> int {
        u64::MAX * (NANOS_PER_SEC as int) + (NANOS_PER_SEC - 1)
    }

    /// A duration of `secs` seconds and `nanos` nanoseconds.
    pub fn new(secs: u64, nanos: u32) -> (d: Duration)
        requires
            nanos < NANOS_PER_SEC,
        ensures
            d.secs == secs,
            d.nanos == nanos,
            d.wf(),
            d.total_nanos() == secs * (NANOS_PER_SEC as int) + nanos,
    {
        Duration { secs, nanos }
    }

    /// The duration whose nanosecond total is `n`.
    pub fn from_total_nanos(n: u128) -> (d: Duration)
        requires
            n <= Duration::max_total_nanos(),
        ensures
            d == spec_duration_of_nanos(n as int),
            d.wf(),
            d.total_nanos() == n,
    {
        proof {
            lemma_duration_of_nanos_total(n as int);
        }
        let secs_wide: u128 = n / (NANOS_PER_SEC as u128);
        let nanos: u32 = (n % (NANOS_PER_SEC as u128)) as u32;
        Duration { secs: secs_wide as u64, nanos }
    }

    /// The whole-second part.
    pub fn secs(&self) -> (s: u64)
        ensures
            s == self.secs,
    {
        self.secs
    }

    /// The sub-second part, in nanoseconds.
    pub fn subsec_nanos(&self) -> (n: u32)
        ensures
            n == self.nanos,
    {
        self.nanos
    }

    /// The value as a whole count of nanoseconds.
    pub fn as_nanos(&self) -> (n: u128)
        ensures
            n == self.total_nanos(),
    {
        proof {
            vstd::arithmetic::mul::lemma_mul_inequality(
                self.secs as int,
                u64::MAX as int,
                NANOS_PER_SEC as int,
            );
        }
        (self.secs as u128) * (NANOS_PER_SEC as u128) + (self.nanos as u128)
    }
}

/// Splitting a nanosecond total into seconds and a remainder loses nothing:
/// for any total a `Duration` can hold, the split is well formed and adds
/// back up to the total.
pub proof fn lemma_duration_of_nanos_total(n: int)
    requires
        0 <= n <= Duration::max_total_nanos(),
    ensures
        spec_duration_of_nanos(n).wf(),
        spec_duration_of_nanos(n).total_nanos() == n,
{
    let d = NANOS_PER_SEC as int;
    lemma_fundamental_div_mod(n, d);
    lemma_div_is_ordered(n, Duration::max_total_nanos(), d);
    assert(Duration::max_total_nanos() / d == u64::MAX) by {
        vstd::arithmetic::div_mod::lemma_fundamental_div_mod_converse(
            Duration::max_total_nanos(),
            d,
            u64::MAX as int,
            d - 1,
        );
    }
}

impl PartialEq for Duration {
    fn eq(&self, other: &Duration) -> (r: bool) {
        self.secs == other.secs && self.nanos == other.nanos
    }
}

impl vstd::std_specs::cmp::PartialEqSpecImpl for Duration {
    open spec fn obeys_eq_spec() -> bool {
        true
    }

    open spec fn eq_spec(&self, other: &Duration) -> bool {
        self.secs == other.secs && self.nanos == other.nanos
    }
}

impl PartialOrd for Duration {
    fn partial_cmp(&self, other: &Duration) -> (r: Option<Ordering>) {
        if self.secs < other.secs {
            Some(Ordering::Less)
        } else if self.secs > other.secs {
            Some(Ordering::Greater)
        } else if self.nanos < other.nanos {
            Some(Ordering::Less)
        } else if self.nanos > other.nanos {
            Some(Ordering::Greater)
        } else {
            Some(Ordering::Equal)
        }
    }
}

impl vstd::std_specs::cmp::PartialOrdSpecImpl for Duration {
    open spec fn obeys_partial_cmp_spec() -> bool {
        true
    }

    open spec fn partial_cmp_spec(&self, other: &Duration) -> Option<Ordering> {
        if self.secs < other.secs {
            Some(Ordering::Less)
        } else if self.secs > other.secs {
            Some(Ordering::Greater)
        } else if self.nanos < other.nanos {
            Some(Ordering::Less)
        } else if self.nanos > other.nanos {
            Some(Ordering::Greater)
        } else {
            Some(Ordering::Equal)
        }
    }
}

/// Comparison agrees with the nanosecond total: two well-formed durations
/// order exactly as their totals do.
pub proof fn lemma_order_matches_total_nanos(a: Duration, b: Duration)
    requires
        a.wf(),
        b.wf(),
    ensures
        a.partial_cmp_spec(&b) == Some(Ordering::Less) <==> a.total_nanos() < b.total_nanos(),
        a.partial_cmp_spec(&b) == Some(Ordering::Equal) <==> a.total_nanos() == b.total_nanos(),
        a.partial_cmp_spec(&b) == Some(Ordering::Greater) <==> a.total_nanos() > b.total_nanos(),
{
}

} // verus!
