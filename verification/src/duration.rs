use vstd::prelude::*;

verus! {

/// Number of nanoseconds in one second.
pub const NANOS_PER_SEC: u32 = 1_000_000_000;

/// A span of time: whole seconds plus a sub-second part in nanoseconds.
#[derive(Debug, Clone, Copy, PartialEq, Eq, Structural)]
pub struct Duration {
    pub secs: u64,
    pub nanos: u32,
}

impl Duration {
    /// The sub-second part is always below one second.
    pub open spec fn wf(self) -> bool {
        self.nanos < NANOS_PER_SEC
    }

    /// Whole seconds.
    pub open spec fn spec_secs(self) -> u64 {
        self.secs
    }

    /// Sub-second nanoseconds.
    pub open spec fn spec_nanos(self) -> u32 {
        self.nanos
    }

    /// The span in nanoseconds, as a mathematical integer.
    pub open spec fn total_nanos(self) -> int {
        self.spec_secs() * NANOS_PER_SEC + self.spec_nanos()
    }

    /// The empty span, as a specification value.
    pub open spec fn spec_zero() -> Duration {
        Duration { secs: 0, nanos: 0 }
    }

    /// A span of whole seconds, as a specification value.
    pub open spec fn from_secs_spec(secs: u64) -> Duration {
        Duration { secs, nanos: 0 }
    }

    /// The empty span.
    pub fn zero() -> (d: Duration)
        ensures
            d == Duration::spec_zero(),
            d.spec_secs() == 0,
            d.spec_nanos() == 0,
            d.wf(),
    {
        Duration { secs: 0, nanos: 0 }
    }

    /// A span of whole seconds.
    pub fn from_secs(secs: u64) -> (d: Duration)
        ensures
            d == Duration::from_secs_spec(secs),
            d.wf(),
    {
        Duration { secs, nanos: 0 }
    }

    /// A span given by seconds and nanoseconds; nanoseconds beyond a second carry over.
    pub fn new(secs: u64, nanos: u32) -> (d: Duration)
        requires
            secs + nanos / NANOS_PER_SEC <= u64::MAX,
        ensures
            d.spec_secs() == secs + nanos / NANOS_PER_SEC,
            d.spec_nanos() == nanos % NANOS_PER_SEC,
            d.wf(),
    {
        Duration { secs: secs + (nanos / NANOS_PER_SEC) as u64, nanos: nanos % NANOS_PER_SEC }
    }

    /// Whole seconds of the span.
    pub fn as_secs(&self) -> (s: u64)
        ensures
            s == self.spec_secs(),
    {
        self.secs
    }

    /// The sub-second part in nanoseconds.
    pub fn subsec_nanos(&self) -> (n: u32)
        ensures
            n == self.spec_nanos(),
    {
        self.nanos
    }

    /// Whether the span is empty.
    pub fn is_zero(&self) -> (b: bool)
        ensures
            b == (self.spec_secs() == 0 && self.spec_nanos() == 0),
    {
        self.secs == 0 && self.nanos == 0
    }

    /// Sum of two spans; `None` when the seconds overflow.
    pub fn checked_add(&self, other: Duration) -> (r: Option<Duration>)
        requires
            self.wf(),
            other.wf(),
        ensures
            match r {
                Some(d) => d.wf() && d.total_nanos() == self.total_nanos() + other.total_nanos(),
                None => self.total_nanos() + other.total_nanos() > u64::MAX as int * NANOS_PER_SEC
                    + (NANOS_PER_SEC - 1),
            },
    {
        let nanos_sum: u64 = self.nanos as u64 + other.nanos as u64;
        let carry: u64 = if nanos_sum >= NANOS_PER_SEC as u64 { 1 } else { 0 };
        let nanos: u32 = (nanos_sum - carry * NANOS_PER_SEC as u64) as u32;
        match self.secs.checked_add(other.secs) {
            Some(s) => match s.checked_add(carry) {
                Some(t) => Some(Duration { secs: t, nanos }),
                None => None,
            },
            None => None,
        }
    }

    /// The longest span.
    pub open spec fn spec_max() -> Duration {
        Duration { secs: u64::MAX, nanos: (NANOS_PER_SEC - 1) as u32 }
    }

    /// Sum of two spans, the longest span where the sum exceeds it.
    pub fn saturating_add(&self, other: Duration) -> (r: Duration)
        requires
            self.wf(),
            other.wf(),
        ensures
            r.wf(),
            self.total_nanos() + other.total_nanos() <= Duration::spec_max().total_nanos()
                ==> r.total_nanos() == self.total_nanos() + other.total_nanos(),
            self.total_nanos() + other.total_nanos() > Duration::spec_max().total_nanos()
                ==> r == Duration::spec_max(),
    {
        match self.checked_add(other) {
            Some(d) => d,
            None => Duration { secs: u64::MAX, nanos: NANOS_PER_SEC - 1 },
        }
    }
}

} // verus!
