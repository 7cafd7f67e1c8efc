//! A span of time with nanosecond resolution.

use vstd::prelude::*;

verus! {

pub const NANOS_PER_SEC: u32 = 1_000_000_000;

pub const NANOS_PER_MILLI: u32 = 1_000_000;

pub const MILLIS_PER_SEC: u64 = 1_000;

/// A non-negative span of time: whole seconds and a sub-second part in
/// nanoseconds, which is always below one second.
#[derive(Copy, Clone, Debug, PartialEq, Eq, Structural)]
pub struct Duration {
    secs: u64,
    nanos: u32,
}

impl Duration {
    #[verifier::type_invariant]
    spec fn well_formed(self) -> bool {
        self.valid()
    }

    /// Whether the sub-second part is below one second. Every span that
    /// executable code holds is valid.
    pub closed spec fn valid(self) -> bool {
        self.nanos < NANOS_PER_SEC
    }

    /// The whole span in nanoseconds.
    pub closed spec fn total_nanos(self) -> nat {
        (self.secs as nat) * (NANOS_PER_SEC as nat) + (self.nanos as nat)
    }

    /// The whole seconds of the span.
    pub closed spec fn whole_secs(self) -> nat {
        self.secs as nat
    }

    /// The empty span.
    pub closed spec fn zero() -> Duration {
        Duration { secs: 0, nanos: 0 }
    }

    /// The span of `secs` whole seconds.
    pub closed spec fn whole_seconds(secs: u64) -> Duration {
        Duration { secs, nanos: 0 }
    }

    /// The longest span.
    pub closed spec fn longest() -> Duration {
        Duration { secs: u64::MAX, nanos: (NANOS_PER_SEC - 1) as u32 }
    }

    /// The sum of the two spans, or the longest span where the sum cannot
    /// be represented.
    pub closed spec fn saturating_sum(self, other: Duration) -> Duration {
        let nanos = (self.nanos + other.nanos) % (NANOS_PER_SEC as int);
        let carry = (self.nanos + other.nanos) / (NANOS_PER_SEC as int);
        if self.secs + other.secs + carry > u64::MAX {
            Self::longest()
        } else {
            Duration { secs: (self.secs + other.secs + carry) as u64, nanos: nanos as u32 }
        }
    }

    /// The length of the longest span, in nanoseconds.
    pub open spec fn max_nanos() -> nat {
        (u64::MAX as nat) * (NANOS_PER_SEC as nat) + (NANOS_PER_SEC as nat - 1) as nat
    }

    /// Two valid spans of the same length are the same value, no valid span
    /// is longer than the largest one, and the whole seconds are the
    /// nanoseconds divided by a second.
    pub proof fn lemma_total_nanos(self, other: Duration)
        requires
            self.valid(),
            other.valid(),
        ensures
            self.total_nanos() == other.total_nanos() <==> self == other,
            self.total_nanos() <= Self::max_nanos(),
            self.whole_secs() == self.total_nanos() / (NANOS_PER_SEC as nat),
    {
        let n: int = NANOS_PER_SEC as int;
        assert(self.total_nanos() as int == (self.secs as int) * n + self.nanos as int);
        assert(other.total_nanos() as int == (other.secs as int) * n + other.nanos as int);
        if self.total_nanos() == other.total_nanos() {
            assert(self.secs == other.secs) by (nonlinear_arith)
                requires
                    (self.secs as int) * n + self.nanos as int == (other.secs as int) * n
                        + other.nanos as int,
                    0 <= self.nanos < n,
                    0 <= other.nanos < n,
                    n > 0,
            ;
        }
        assert((self.secs as int) * n <= (u64::MAX as int) * n) by (nonlinear_arith)
            requires
                self.secs <= u64::MAX,
                n > 0,
        ;
        assert(((self.secs as int) * n + self.nanos as int) / n == self.secs as int)
            by (nonlinear_arith)
            requires
                0 <= self.nanos < n,
                n > 0,
        ;
    }

    /// A span of `secs` seconds and `nanos` nanoseconds. Nanoseconds that
    /// make up whole seconds are carried over; a span that would be longer
    /// than the longest one is the longest one.
    pub fn new(secs: u64, nanos: u32) -> (d: Duration)
        ensures
            d.valid(),
            d.total_nanos() == if (secs as nat) * (NANOS_PER_SEC as nat) + (nanos as nat)
                <= Self::max_nanos() {
                (secs as nat) * (NANOS_PER_SEC as nat) + (nanos as nat)
            } else {
                Self::max_nanos()
            },
    {
        let whole = Duration { secs, nanos: 0 };
        let part = Duration { secs: (nanos / NANOS_PER_SEC) as u64, nanos: nanos % NANOS_PER_SEC };
        assert(part.total_nanos() == nanos) by (nonlinear_arith)
            requires
                part.total_nanos() == ((nanos / NANOS_PER_SEC) as nat) * (NANOS_PER_SEC as nat) + (
                nanos % NANOS_PER_SEC) as nat,
                NANOS_PER_SEC == 1_000_000_000,
        ;
        whole.saturating_add(&part)
    }

    /// A span of `secs` whole seconds.
    pub fn from_secs(secs: u64) -> (d: Duration)
        ensures
            d.valid(),
            d.total_nanos() == (secs as nat) * (NANOS_PER_SEC as nat),
            d.whole_secs() == secs,
            secs == 0 ==> d == Duration::zero(),
            d == Duration::whole_seconds(secs),
    {
        Duration { secs, nanos: 0 }
    }

    /// A span of `millis` milliseconds.
    pub fn from_millis(millis: u64) -> (d: Duration)
        ensures
            d.valid(),
            d.total_nanos() == (millis as nat) * (NANOS_PER_MILLI as nat),
            d.whole_secs() == millis / MILLIS_PER_SEC,
    {
        let secs: u64 = millis / MILLIS_PER_SEC;
        let rest: u64 = millis % MILLIS_PER_SEC;
        let nanos: u32 = (rest as u32) * NANOS_PER_MILLI;
        assert((secs as nat) * (NANOS_PER_SEC as nat) + (nanos as nat) == (millis as nat) * (
        NANOS_PER_MILLI as nat)) by (nonlinear_arith)
            requires
                secs == millis / 1000,
                rest == millis % 1000,
                nanos == rest * 1_000_000,
                NANOS_PER_SEC == 1_000_000_000,
                NANOS_PER_MILLI == 1_000_000,
        ;
        Duration { secs, nanos }
    }

    /// The whole seconds of the span; the sub-second part is dropped.
    pub fn as_secs(&self) -> (secs: u64)
        ensures
            secs == self.whole_secs(),
            secs == self.total_nanos() / (NANOS_PER_SEC as nat),
    {
        proof {
            use_type_invariant(self);
            self.lemma_total_nanos(*self);
        }
        self.secs
    }

    /// The part of the span that is less than a second, in nanoseconds.
    pub fn subsec_nanos(&self) -> (nanos: u32)
        ensures
            nanos == self.total_nanos() % (NANOS_PER_SEC as nat),
            nanos < NANOS_PER_SEC,
    {
        proof {
            use_type_invariant(self);
            let n: int = NANOS_PER_SEC as int;
            assert(((self.secs as int) * n + self.nanos as int) % n == self.nanos as int)
                by (nonlinear_arith)
                requires
                    0 <= self.nanos < n,
                    n > 0,
            ;
        }
        self.nanos
    }

    /// The whole span in nanoseconds.
    pub fn as_nanos(&self) -> (nanos: u128)
        ensures
            nanos == self.total_nanos(),
    {
        proof {
            use_type_invariant(self);
            assert((self.secs as int) * (NANOS_PER_SEC as int) <= (u64::MAX as int) * (
            NANOS_PER_SEC as int)) by (nonlinear_arith)
                requires
                    self.secs <= u64::MAX,
                    NANOS_PER_SEC > 0,
            ;
        }
        (self.secs as u128) * (NANOS_PER_SEC as u128) + (self.nanos as u128)
    }

    /// Whether the span is empty.
    pub fn is_zero(&self) -> (zero: bool)
        ensures
            zero == (self.total_nanos() == 0),
    {
        proof {
            assert(self.secs > 0 ==> (self.secs as int) * (NANOS_PER_SEC as int) > 0)
                by (nonlinear_arith)
                requires
                    NANOS_PER_SEC > 0,
            ;
        }
        self.secs == 0 && self.nanos == 0
    }

    /// Whether this span is strictly longer than `other`.
    pub fn is_longer_than(&self, other: &Duration) -> (longer: bool)
        ensures
            longer == (self.total_nanos() > other.total_nanos()),
    {
        proof {
            use_type_invariant(self);
            use_type_invariant(other);
            let n: int = NANOS_PER_SEC as int;
            if self.secs > other.secs {
                assert((self.secs as int) * n >= (other.secs as int) * n + n) by (nonlinear_arith)
                    requires
                        self.secs > other.secs,
                        n > 0,
                ;
            }
            if self.secs < other.secs {
                assert((other.secs as int) * n >= (self.secs as int) * n + n) by (nonlinear_arith)
                    requires
                        self.secs < other.secs,
                        n > 0,
                ;
            }
        }
        self.secs > other.secs || (self.secs == other.secs && self.nanos > other.nanos)
    }

    /// The sum of the two spans, or the largest span where the sum cannot
    /// be represented.
    pub fn saturating_add(&self, other: &Duration) -> (sum: Duration)
        ensures
            sum.valid(),
            sum == self.saturating_sum(*other),
            sum.total_nanos() == if self.total_nanos() + other.total_nanos() <= Self::max_nanos() {
                self.total_nanos() + other.total_nanos()
            } else {
                Self::max_nanos()
            },
    {
        proof {
            use_type_invariant(self);
            use_type_invariant(other);
        }
        let mut nanos: u32 = self.nanos + other.nanos;
        let mut carry: u64 = 0;
        if nanos >= NANOS_PER_SEC {
            nanos = nanos - NANOS_PER_SEC;
            carry = 1;
        }
        let ghost n: int = NANOS_PER_SEC as int;
        let ghost total: int = (self.total_nanos() + other.total_nanos()) as int;
        assert(total == (self.secs as int + other.secs as int + carry as int) * n + nanos as int)
            by (nonlinear_arith)
            requires
                total == (self.secs as int) * n + self.nanos as int + (other.secs as int) * n
                    + other.nanos as int,
                nanos as int + (carry as int) * n == self.nanos as int + other.nanos as int,
        ;
        let top: u64 = u64::MAX;
        if self.secs > top - other.secs || self.secs + other.secs > top - carry {
            assert(total > Self::max_nanos()) by (nonlinear_arith)
                requires
                    total == (self.secs as int + other.secs as int + carry as int) * n
                        + nanos as int,
                    self.secs as int + other.secs as int + carry as int > u64::MAX as int,
                    Self::max_nanos() == (u64::MAX as int) * n + n - 1,
                    nanos >= 0,
                    n > 0,
            ;
            Duration { secs: top, nanos: NANOS_PER_SEC - 1 }
        } else {
            let secs: u64 = self.secs + other.secs + carry;
            assert(total <= Self::max_nanos()) by (nonlinear_arith)
                requires
                    total == (secs as int) * n + nanos as int,
                    secs as int <= u64::MAX as int,
                    Self::max_nanos() == (u64::MAX as int) * n + n - 1,
                    nanos < n,
                    n > 0,
            ;
            Duration { secs, nanos }
        }
    }

    /// What is left of this span once `other` is taken away, or the empty
    /// span where `other` is the longer one.
    pub fn saturating_sub(&self, other: &Duration) -> (rest: Duration)
        ensures
            rest.valid(),
            rest.total_nanos() == if self.total_nanos() >= other.total_nanos() {
                self.total_nanos() - other.total_nanos()
            } else {
                0
            },
    {
        proof {
            use_type_invariant(self);
            use_type_invariant(other);
        }
        let ghost n: int = NANOS_PER_SEC as int;
        if other.is_longer_than(self) {
            return Duration { secs: 0, nanos: 0 };
        }
        proof {
            if self.secs < other.secs {
                assert((other.secs as int) * n >= (self.secs as int) * n + n) by (nonlinear_arith)
                    requires
                        self.secs < other.secs,
                        n > 0,
                ;
            }
        }
        if self.nanos >= other.nanos {
            let secs: u64 = self.secs - other.secs;
            let nanos: u32 = self.nanos - other.nanos;
            assert((secs as int) * n + nanos as int == (self.secs as int) * n + self.nanos as int - (
            (other.secs as int) * n + other.nanos as int)) by (nonlinear_arith)
                requires
                    secs as int == self.secs as int - other.secs as int,
                    nanos as int == self.nanos as int - other.nanos as int,
            ;
            Duration { secs, nanos }
        } else {
            let secs: u64 = self.secs - other.secs - 1;
            let nanos: u32 = self.nanos + NANOS_PER_SEC - other.nanos;
            assert((secs as int) * n + nanos as int == (self.secs as int) * n + self.nanos as int - (
            (other.secs as int) * n + other.nanos as int)) by (nonlinear_arith)
                requires
                    secs as int == self.secs as int - other.secs as int - 1,
                    nanos as int == self.nanos as int + n - other.nanos as int,
            ;
            Duration { secs, nanos }
        }
    }
}

} // verus!
