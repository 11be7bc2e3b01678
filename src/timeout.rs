//! Timeouts that clones of a client share across threads.
use vstd::prelude::*;

use std::sync::atomic::{AtomicU32, AtomicU64, Ordering};
use std::sync::Arc;

use crate::span::Span;

verus! {

/// A span kept in two atomics, so that any thread may read or replace it.
#[derive(Debug)]
struct AtomicSpan {
    seconds: AtomicU64,
    nanos: AtomicU32,
}

impl AtomicSpan {
    fn new(span: Span) -> (r: Self)
        requires
            span.wf(),
    {
        AtomicSpan { seconds: AtomicU64::new(span.as_secs()), nanos: AtomicU32::new(span.subsec_nanos()) }
    }

    fn set(&self, span: Span)
        requires
            span.wf(),
    {
        self.seconds.store(span.as_secs(), Ordering::Release);
        self.nanos.store(span.subsec_nanos(), Ordering::Release);
    }

    /// Another thread may write between the two reads, so nothing is known of
    /// the result but that it is a span.
    fn get(&self) -> (r: Span)
        ensures
            r.wf(),
    {
        let seconds = self.seconds.load(Ordering::Acquire);
        let nanos = self.nanos.load(Ordering::Acquire);
        Span::saturating_new(seconds, nanos)
    }
}

/// A span that can be cloned, and set from any of its clones.
#[derive(Debug, Clone)]
pub struct SharedDuration {
    duration: Arc<AtomicSpan>,
}

impl SharedDuration {
    /// Create a new shared span.
    pub fn new(timeout: Span) -> (r: Self)
        requires
            timeout.wf(),
    {
        SharedDuration { duration: Arc::new(AtomicSpan::new(timeout)) }
    }

    /// The span stored here, as the last writer on any thread left it.
    pub fn get(&self) -> (r: Span)
        ensures
            r.wf(),
    {
        self.duration.get()
    }

    /// Replace the span stored here, for every clone.
    pub fn set(&self, timeout: Span)
        requires
            timeout.wf(),
    {
        self.duration.set(timeout)
    }
}

/// A layer that applies a timeout held in a [`SharedDuration`].
#[derive(Debug, Clone)]
pub struct SharedTimeoutLayer {
    timeout: SharedDuration,
}

impl SharedTimeoutLayer {
    /// The shared span used by this layer.
    pub closed spec fn shared(&self) -> SharedDuration {
        self.timeout
    }

    /// Create a new shared timeout layer with the given timeout.
    pub fn new(timeout: Span) -> (r: Self)
        requires
            timeout.wf(),
    {
        SharedTimeoutLayer { timeout: SharedDuration::new(timeout) }
    }

    /// The shared span used by this layer.
    pub fn timeout(&self) -> (r: &SharedDuration)
        ensures
            *r == self.shared(),
    {
        &self.timeout
    }

    /// Wrap `inner` with this layer's timeout; later changes to the span
    /// reach every service wrapped so.
    pub fn layer<S>(&self, inner: S) -> (r: TimeoutService<S>)
        ensures
            r.inner() == inner,
    {
        TimeoutService { service: inner, timeout: self.timeout.clone() }
    }
}

impl From<SharedDuration> for SharedTimeoutLayer {
    fn from(duration: SharedDuration) -> (r: Self) {
        SharedTimeoutLayer { timeout: duration }
    }
}

impl vstd::std_specs::convert::FromSpecImpl<SharedDuration> for SharedTimeoutLayer {
    open spec fn obeys_from_spec() -> bool {
        true
    }

    closed spec fn from_spec(duration: SharedDuration) -> SharedTimeoutLayer {
        SharedTimeoutLayer { timeout: duration }
    }
}

/// A service wrapped with a timeout held in a [`SharedDuration`].
#[derive(Debug, Clone)]
pub struct TimeoutService<S> {
    service: S,
    timeout: SharedDuration,
}

impl<S> TimeoutService<S> {
    /// The shared span of the timeout.
    pub closed spec fn shared(&self) -> SharedDuration {
        self.timeout
    }

    /// The wrapped service.
    pub closed spec fn inner(&self) -> S {
        self.service
    }

    /// Wrap `service` with a new timeout of `timeout`.
    pub fn new(service: S, timeout: Span) -> (r: Self)
        requires
            timeout.wf(),
        ensures
            r.inner() == service,
    {
        TimeoutService { service, timeout: SharedDuration::new(timeout) }
    }

    /// The timeout's shared span.
    pub fn timeout(&self) -> (r: &SharedDuration)
        ensures
            *r == self.shared(),
    {
        &self.timeout
    }

    /// The inner service.
    pub fn service(&self) -> (r: &S)
        ensures
            *r == self.inner(),
    {
        &self.service
    }

    /// Unwrap into the inner service.
    pub fn into_service(self) -> (r: S)
        ensures
            r == self.inner(),
    {
        self.service
    }
}

} // verus!
