//! Spans of time and points on the wall clock, to the nanosecond.

use vstd::prelude::*;

verus! {

/// The nanoseconds of a second.
pub const NANOS_PER_SEC: u32 = 1_000_000_000;

/// A span of time.
#[derive(Clone, Copy, Debug, PartialEq, Eq, Structural)]
pub struct Duration {
    secs: u64,
    nanos: u32,
}

impl View for Duration {
    type V = nat;

    /// The length of the span in nanoseconds.
    closed spec fn view(&self) -> nat {
        (self.secs * 1_000_000_000 + self.nanos) as nat
    }
}

/// The longest span in nanoseconds.
pub open spec fn longest_span() -> nat {
    (u64::MAX * 1_000_000_000 + 999_999_999) as nat
}

impl Duration {
    #[verifier::type_invariant]
    spec fn normal(self) -> bool {
        self.nanos < 1_000_000_000
    }

    /// The empty span.
    pub fn zero() -> (span: Duration)
        ensures
            span@ == 0,
    {
        Duration { secs: 0, nanos: 0 }
    }

    /// A span of whole seconds and a fraction below one second.
    pub fn new(secs: u64, nanos: u32) -> (span: Duration)
        requires
            nanos < NANOS_PER_SEC,
        ensures
            span@ == secs * 1_000_000_000 + nanos,
    {
        Duration { secs, nanos }
    }

    /// A span of whole seconds.
    pub fn from_secs(secs: u64) -> (span: Duration)
        ensures
            span@ == secs * 1_000_000_000,
    {
        Duration { secs, nanos: 0 }
    }

    /// The whole seconds of the span.
    pub fn as_secs(self) -> (secs: u64)
        ensures
            secs == self@ / 1_000_000_000,
    {
        proof {
            use_type_invariant(self);
        }
        self.secs
    }

    /// The part of the span that is less than a second, in nanoseconds.
    pub fn subsec_nanos(self) -> (nanos: u32)
        ensures
            nanos == self@ % 1_000_000_000,
            nanos < NANOS_PER_SEC,
    {
        proof {
            use_type_invariant(self);
        }
        self.nanos
    }

    /// The sum of two spans, or the longest span where that is shorter.
    pub fn saturating_add(self, other: Duration) -> (sum: Duration)
        ensures
            sum@ == if self@ + other@ <= longest_span() {
                self@ + other@
            } else {
                longest_span()
            },
    {
        proof {
            use_type_invariant(self);
            use_type_invariant(other);
        }
        let fraction: u32 = self.nanos + other.nanos;
        let (carry, nanos): (u64, u32) = if fraction >= NANOS_PER_SEC {
            (1, fraction - NANOS_PER_SEC)
        } else {
            (0, fraction)
        };
        match self.secs.checked_add(other.secs) {
            Some(secs) => match secs.checked_add(carry) {
                Some(secs) => Duration { secs, nanos },
                None => Duration { secs: u64::MAX, nanos: 999_999_999 },
            },
            None => Duration { secs: u64::MAX, nanos: 999_999_999 },
        }
    }

    /// Whether two spans are equally long.
    pub fn same(self, other: Duration) -> (same: bool)
        ensures
            same == (self@ == other@),
            same == (self == other),
    {
        proof {
            use_type_invariant(self);
            use_type_invariant(other);
        }
        self.secs == other.secs && self.nanos == other.nanos
    }
}

/// A point on the wall clock.
#[derive(Clone, Copy, Debug, PartialEq, Eq, Structural)]
pub struct SystemTime {
    secs: i64,
    nanos: u32,
}

impl View for SystemTime {
    type V = int;

    /// The nanoseconds since the first instant of 1970, negative before it.
    closed spec fn view(&self) -> int {
        self.secs * 1_000_000_000 + self.nanos
    }
}

impl SystemTime {
    #[verifier::type_invariant]
    spec fn normal(self) -> bool {
        self.nanos < 1_000_000_000
    }

    /// A point given by the whole seconds since the first instant of 1970,
    /// rounded down, and a fraction below one second.
    pub fn new(secs: i64, nanos: u32) -> (time: SystemTime)
        requires
            nanos < NANOS_PER_SEC,
        ensures
            time@ == secs * 1_000_000_000 + nanos,
    {
        SystemTime { secs, nanos }
    }

    /// A point a number of whole seconds after the first instant of 1970.
    pub fn from_unix_secs(secs: i64) -> (time: SystemTime)
        ensures
            time@ == secs * 1_000_000_000,
    {
        SystemTime { secs, nanos: 0 }
    }

    /// The whole seconds since the first instant of 1970, rounded down.
    pub fn unix_secs(self) -> (secs: i64)
        ensures
            secs == self@ / 1_000_000_000,
    {
        proof {
            use_type_invariant(self);
        }
        self.secs
    }

    /// What is left of the point after its whole seconds, in nanoseconds.
    pub fn subsec_nanos(self) -> (nanos: u32)
        ensures
            nanos == self@ % 1_000_000_000,
            nanos < NANOS_PER_SEC,
    {
        proof {
            use_type_invariant(self);
        }
        self.nanos
    }

    /// The span from an earlier point to this one; nothing where the other
    /// point is the later one.
    pub fn duration_since(self, earlier: SystemTime) -> (span: Option<Duration>)
        ensures
            match span {
                Some(span) => self@ >= earlier@ && span@ == self@ - earlier@,
                None => self@ < earlier@,
            },
    {
        proof {
            use_type_invariant(self);
            use_type_invariant(earlier);
        }
        if self.secs < earlier.secs {
            return None;
        }
        let secs: u64 = (self.secs as i128 - earlier.secs as i128) as u64;
        if self.nanos >= earlier.nanos {
            Some(Duration { secs, nanos: self.nanos - earlier.nanos })
        } else if secs > 0 {
            Some(
                Duration {
                    secs: secs - 1,
                    nanos: NANOS_PER_SEC - (earlier.nanos - self.nanos),
                },
            )
        } else {
            None
        }
    }

    /// Whether this point lies before another.
    pub fn before(self, other: SystemTime) -> (before: bool)
        ensures
            before == (self@ < other@),
    {
        proof {
            use_type_invariant(self);
            use_type_invariant(other);
        }
        self.secs < other.secs || (self.secs == other.secs && self.nanos < other.nanos)
    }

    /// Whether two points are the same instant.
    pub fn same(self, other: SystemTime) -> (same: bool)
        ensures
            same == (self@ == other@),
            same == (self == other),
    {
        proof {
            use_type_invariant(self);
            use_type_invariant(other);
        }
        self.secs == other.secs && self.nanos == other.nanos
    }
}

} // verus!
