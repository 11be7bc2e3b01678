//! Spans of time: whole seconds and the nanoseconds of the second begun.
use vstd::prelude::*;

verus! {

/// Nanoseconds in one second.
pub const NANOS_PER_SEC: u32 = 1_000_000_000;

/// The longest span: `u64::MAX` seconds and 999,999,999 nanoseconds, in nanoseconds.
pub open spec fn max_span() -> int {
    u64::MAX as int * NANOS_PER_SEC as int + (NANOS_PER_SEC - 1) as int
}

/// A span of time, exact to the nanosecond.
#[derive(Debug, Clone, Copy, PartialEq, Eq, Structural)]
pub struct Span {
    secs: u64,
    nanos: u32,
}

impl View for Span {
    type V = int;

    /// The span in nanoseconds.
    closed spec fn view(&self) -> int {
        self.secs as int * NANOS_PER_SEC as int + self.nanos as int
    }
}

impl Span {
    /// The nanoseconds of the second begun are fewer than a second.
    pub closed spec fn wf(self) -> bool {
        self.nanos < NANOS_PER_SEC
    }

    /// Every well-formed span lies between zero and the longest span.
    pub proof fn lemma_range(self)
        requires
            self.wf(),
        ensures
            0 <= self@ <= max_span(),
    {
        assert(self.secs as int * NANOS_PER_SEC as int <= u64::MAX as int * NANOS_PER_SEC as int)
            by (nonlinear_arith)
            requires
                self.secs <= u64::MAX,
        ;
    }

    /// The span of `nanos` nanoseconds, for any count up to the longest span.
    pub fn from_total(nanos: u128) -> (r: Span)
        requires
            nanos <= max_span(),
        ensures
            r.wf(),
            r@ == nanos,
    {
        let secs = nanos / (NANOS_PER_SEC as u128);
        let rest = nanos % (NANOS_PER_SEC as u128);
        assert(secs <= u64::MAX) by (nonlinear_arith)
            requires
                nanos <= u64::MAX as int * 1_000_000_000 + 999_999_999,
                secs == nanos / 1_000_000_000,
        ;
        let r = Span { secs: secs as u64, nanos: rest as u32 };
        proof {
            assert(nanos == secs * 1_000_000_000 + rest) by (nonlinear_arith)
                requires
                    secs == nanos / 1_000_000_000,
                    rest == nanos % 1_000_000_000,
            ;
        }
        r
    }

    /// The span in nanoseconds.
    pub fn as_total(&self) -> (r: u128)
        requires
            self.wf(),
        ensures
            r == self@,
    {
        proof {
            self.lemma_range();
        }
        self.secs as u128 * (NANOS_PER_SEC as u128) + self.nanos as u128
    }

    /// The empty span.
    pub fn zero() -> (r: Span)
        ensures
            r.wf(),
            r@ == 0,
    {
        Span { secs: 0, nanos: 0 }
    }

    /// The longest span.
    pub fn longest() -> (r: Span)
        ensures
            r.wf(),
            r@ == max_span(),
    {
        Span { secs: u64::MAX, nanos: NANOS_PER_SEC - 1 }
    }

    /// A span of `secs` seconds and `nanos` nanoseconds, where whole seconds
    /// among the nanoseconds carry over into the seconds, held at the longest span.
    pub fn saturating_new(secs: u64, nanos: u32) -> (r: Span)
        ensures
            r.wf(),
            r@ == if secs * NANOS_PER_SEC + nanos <= max_span() {
                secs * NANOS_PER_SEC + nanos
            } else {
                max_span()
            },
    {
        assert(secs * 1_000_000_000 <= u64::MAX as int * 1_000_000_000) by (nonlinear_arith)
            requires
                secs <= u64::MAX,
        ;
        let total = secs as u128 * (NANOS_PER_SEC as u128) + nanos as u128;
        let limit = (u64::MAX as u128) * (NANOS_PER_SEC as u128) + (NANOS_PER_SEC - 1) as u128;
        if total <= limit {
            Span::from_total(total)
        } else {
            Span::longest()
        }
    }

    /// A span of whole seconds.
    pub fn from_secs(secs: u64) -> (r: Span)
        ensures
            r.wf(),
            r@ == secs * NANOS_PER_SEC,
    {
        Span { secs, nanos: 0 }
    }

    /// A span of milliseconds.
    pub fn from_millis(millis: u64) -> (r: Span)
        ensures
            r.wf(),
            r@ == millis * 1_000_000,
    {
        let total = millis as u128 * 1_000_000;
        proof {
            assert(millis * 1_000_000 <= max_span()) by (nonlinear_arith)
                requires
                    millis <= u64::MAX,
            ;
        }
        Span::from_total(total)
    }

    /// A span of `secs` seconds and `nanos` nanoseconds, where whole seconds
    /// among the nanoseconds carry over into the seconds.
    pub fn new(secs: u64, nanos: u32) -> (r: Span)
        requires
            secs * NANOS_PER_SEC + nanos <= max_span(),
        ensures
            r.wf(),
            r@ == secs * NANOS_PER_SEC + nanos,
    {
        Span::from_total(secs as u128 * (NANOS_PER_SEC as u128) + nanos as u128)
    }

    /// Whole seconds in the span.
    pub fn as_secs(&self) -> (r: u64)
        requires
            self.wf(),
        ensures
            r == self@ / NANOS_PER_SEC as int,
    {
        proof {
            let (s, n) = (self.secs as int, self.nanos as int);
            assert((s * 1_000_000_000 + n) / 1_000_000_000 == s) by (nonlinear_arith)
                requires
                    0 <= n < 1_000_000_000,
            ;
        }
        self.secs
    }

    /// Nanoseconds of the second begun.
    pub fn subsec_nanos(&self) -> (r: u32)
        requires
            self.wf(),
        ensures
            r == self@ % NANOS_PER_SEC as int,
    {
        proof {
            let (s, n) = (self.secs as int, self.nanos as int);
            assert((s * 1_000_000_000 + n) % 1_000_000_000 == n) by (nonlinear_arith)
                requires
                    0 <= n < 1_000_000_000,
                    0 <= s,
            ;
        }
        self.nanos
    }

    /// The span `k` times over, or `None` where that is longer than the longest span.
    pub fn checked_mul(&self, k: u32) -> (r: Option<Span>)
        requires
            self.wf(),
        ensures
            self@ * k > max_span() ==> r is None,
            self@ * k <= max_span() ==> r is Some && r.unwrap().wf() && r.unwrap()@ == self@ * k,
    {
        let total = self.as_total();
        proof {
            self.lemma_range();
            assert(self@ * k <= max_span() * u32::MAX) by (nonlinear_arith)
                requires
                    0 <= self@ <= max_span(),
                    k <= u32::MAX,
            ;
        }
        let product = total * (k as u128);
        let limit = (u64::MAX as u128) * (NANOS_PER_SEC as u128) + (NANOS_PER_SEC - 1) as u128;
        if product > limit {
            None
        } else {
            Some(Span::from_total(product))
        }
    }

    /// Whether this span is at least as long as `other`.
    pub fn at_least(&self, other: &Span) -> (r: bool)
        requires
            self.wf(),
            other.wf(),
        ensures
            r == (self@ >= other@),
    {
        self.secs > other.secs || (self.secs == other.secs && self.nanos >= other.nanos)
    }
}

} // verus!
