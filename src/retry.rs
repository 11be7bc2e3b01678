//! Policies that decide whether a failed request is sent again.
//!
//! A request's outcome is given as the response's status code, or `None`
//! where no response came back at all (a transport error).
use vstd::prelude::*;

use crate::span::{max_span, Span};

verus! {

/// Gateway Timeout.
pub const GATEWAY_TIMEOUT: u16 = 504;

/// Request Timeout.
pub const REQUEST_TIMEOUT: u16 = 408;

/// Too Many Requests.
pub const TOO_MANY_REQUESTS: u16 = 429;

/// A status code in the 5xx range.
pub open spec fn is_server_error(status: u16) -> bool {
    500 <= status <= 599
}

/// A policy for retrying requests with exponential backoff.
#[derive(Debug, Clone, Copy)]
pub struct Backoff {
    /// The initial delay for the backoff.
    pub delay: Span,
    /// The factor by which the delay grows at each step.
    pub exponent: u32,
    /// The delay at which the backoff gives up.
    pub max_delay: Span,
}

impl Backoff {
    /// Both delays are well-formed spans.
    pub open spec fn wf(self) -> bool {
        self.delay.wf() && self.max_delay.wf()
    }

    /// The backoff has no next step: the grown delay overflows or reaches the maximum.
    pub open spec fn exhausted(self) -> bool {
        self.delay@ * self.exponent > max_span() || self.delay@ * self.exponent >= self.max_delay@
    }

    /// Create a new backoff policy.
    pub fn new(delay: Span, exponent: u32, max_delay: Span) -> (r: Self)
        ensures
            r.delay == delay,
            r.exponent == exponent,
            r.max_delay == max_delay,
    {
        Backoff { delay, exponent, max_delay }
    }

    /// The next step of the backoff: the delay multiplied by the exponent, or
    /// `None` where that product overflows or reaches the maximum delay.
    pub fn increment(&self) -> (r: Option<Self>)
        requires
            self.wf(),
        ensures
            r is None <==> self.exhausted(),
            r is Some ==> r.unwrap().wf() && r.unwrap().delay@ == self.delay@ * self.exponent
                && r.unwrap().exponent == self.exponent && r.unwrap().max_delay
                == self.max_delay,
    {
        let delay = match self.delay.checked_mul(self.exponent) {
            Some(d) => d,
            None => return None,
        };
        if delay.at_least(&self.max_delay) {
            return None;
        }
        Some(Backoff { delay, exponent: self.exponent, max_delay: self.max_delay })
    }

    /// The policy to follow after the server has asked for `delay` before the
    /// next attempt; the backoff carries on as before after it.
    pub fn rate_limited(&self, delay: Span) -> (r: Self)
        ensures
            r.delay == delay,
            r.exponent == self.exponent,
            r.max_delay == self.max_delay,
    {
        Backoff { delay, exponent: self.exponent, max_delay: self.max_delay }
    }

    /// Whether to try again after `outcome`, and after which policy's delay.
    ///
    /// Nothing is retried once the backoff is exhausted. Timeouts, server
    /// errors and transport errors are retried after the next step's delay.
    /// A rate limit is retried after the `retry_after` seconds that the
    /// server asked for, or else after the next step's delay. Any other
    /// response is final.
    pub fn retry(&self, outcome: Option<u16>, retry_after: Option<u64>) -> (r: Option<Self>)
        requires
            self.wf(),
        ensures
            ({
                match outcome {
                    _ if self.exhausted() => r is None,
                    None => r is Some && r.unwrap().delay@ == self.delay@ * self.exponent,
                    Some(s) => if s == GATEWAY_TIMEOUT || s == REQUEST_TIMEOUT
                        || is_server_error(s) {
                        r is Some && r.unwrap().delay@ == self.delay@ * self.exponent
                    } else if s == TOO_MANY_REQUESTS {
                        r is Some && match retry_after {
                            Some(secs) => r.unwrap().delay@ == secs * 1_000_000_000,
                            None => r.unwrap().delay@ == self.delay@ * self.exponent,
                        }
                    } else {
                        r is None
                    },
                }
            }),
            r is Some ==> r.unwrap().wf() && r.unwrap().exponent == self.exponent
                && r.unwrap().max_delay == self.max_delay,
    {
        let backoff = match self.increment() {
            Some(b) => b,
            None => return None,
        };
        match outcome {
            None => Some(backoff),
            Some(status) => {
                if status == GATEWAY_TIMEOUT || status == REQUEST_TIMEOUT {
                    Some(backoff)
                } else if 500 <= status && status <= 599 {
                    Some(backoff)
                } else if status == TOO_MANY_REQUESTS {
                    match retry_after {
                        Some(secs) => Some(self.rate_limited(Span::from_secs(secs))),
                        None => Some(backoff),
                    }
                } else {
                    None
                }
            },
        }
    }
}

/// A policy for retrying requests a fixed number of times.
#[derive(Debug, Clone, Copy)]
pub struct Attempts(pub usize);

impl Attempts {
    /// A policy that retries `n` times.
    pub fn new(n: usize) -> (r: Self)
        ensures
            r.0 == n,
    {
        Attempts(n)
    }

    /// Whether to try again after `outcome`, using up one retry if so.
    ///
    /// Server errors and transport errors are retried while retries are
    /// left; anything else is final.
    pub fn retry(&mut self, outcome: Option<u16>) -> (r: bool)
        ensures
            r == (old(self).0 > 0 && match outcome {
                None => true,
                Some(s) => is_server_error(s),
            }),
            final(self).0 == if r { old(self).0 - 1 } else { old(self).0 as int },
    {
        let eligible = match outcome {
            None => true,
            Some(status) => 500 <= status && status <= 599,
        };
        if eligible && self.0 > 0 {
            self.0 = self.0 - 1;
            true
        } else {
            false
        }
    }
}

impl Default for Attempts {
    fn default() -> (r: Self)
        ensures
            r.0 == 3,
    {
        Attempts(3)
    }
}

impl From<usize> for Attempts {
    fn from(n: usize) -> (r: Self) {
        Attempts(n)
    }
}

impl vstd::std_specs::convert::FromSpecImpl<usize> for Attempts {
    open spec fn obeys_from_spec() -> bool {
        true
    }

    open spec fn from_spec(n: usize) -> Attempts {
        Attempts(n)
    }
}

} // verus!
