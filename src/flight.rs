//! The single-flight coalescer.
//!
//! A [`Request`] remembers the one fetch that is currently running for it, if
//! any. The runtime that drives fetches (spawning tasks, broadcasting their
//! results) stores an observer of each running fetch here, of type `S`, and
//! asks [`Request::claim`] whether a caller should join that fetch or start a
//! new one. Whether the observed fetch is still alive is a fact about the
//! runtime, so the caller hands it in.
use vstd::prelude::*;

verus! {

/// What a caller of [`Request::claim`] should do next.
#[derive(Debug, Clone, Copy, PartialEq, Eq, Structural)]
pub enum Claim {
    /// A fetch is already running: subscribe to it, and drop the caller's factory.
    Join,
    /// No fetch is running: the caller's fetch is now the one in flight.
    Launch,
}

/// The in-flight marker of one coalescing slot.
#[derive(Debug)]
pub struct Request<S> {
    inflight: Option<S>,
}

impl<S> View for Request<S> {
    type V = Option<S>;

    closed spec fn view(&self) -> Option<S> {
        self.inflight
    }
}

/// A caller joins the recorded fetch exactly when one is recorded and still alive.
pub open spec fn claim_of<S>(inflight: Option<S>, live: bool) -> Claim {
    if inflight is Some && live {
        Claim::Join
    } else {
        Claim::Launch
    }
}

/// The in-flight marker after a claim: unchanged on a join, the new fetch on a launch.
pub open spec fn after_claim<S>(inflight: Option<S>, live: bool, fresh: S) -> Option<S> {
    match claim_of(inflight, live) {
        Claim::Join => inflight,
        Claim::Launch => Some(fresh),
    }
}

/// Claims made one after another while no fetch completes: a recorded fetch
/// counts as alive exactly while it is recorded.
pub open spec fn claims_before_completion<S>(inflight: Option<S>, fresh: Seq<S>) -> Option<S>
    decreases fresh.len(),
{
    if fresh.len() == 0 {
        inflight
    } else {
        claims_before_completion(after_claim(inflight, inflight is Some, fresh[0]), fresh.drop_first())
    }
}

/// How many of those claims launch a fetch.
pub open spec fn launches_before_completion<S>(inflight: Option<S>, fresh: Seq<S>) -> nat
    decreases fresh.len(),
{
    if fresh.len() == 0 {
        0
    } else {
        (if claim_of(inflight, inflight is Some) == Claim::Launch { 1nat } else { 0nat })
            + launches_before_completion(
            after_claim(inflight, inflight is Some, fresh[0]),
            fresh.drop_first(),
        )
    }
}

impl<S> Request<S> {
    /// A slot with no fetch in flight.
    pub fn new() -> (r: Self)
        ensures
            r@ is None,
    {
        Request { inflight: None }
    }

    /// The observer of the fetch recorded as in flight, if any.
    pub fn inflight(&self) -> (r: Option<&S>)
        ensures
            r is Some <==> self@ is Some,
            r is Some ==> *r.unwrap() == self@.unwrap(),
    {
        match &self.inflight {
            Some(s) => Some(s),
            None => None,
        }
    }

    /// Decide whether the caller joins the running fetch or launches its own.
    ///
    /// `live` tells whether the recorded fetch is still running. On a launch
    /// `fresh` becomes the recorded fetch; on a join it is dropped.
    pub fn claim(&mut self, live: bool, fresh: S) -> (r: Claim)
        ensures
            r == claim_of(old(self)@, live),
            final(self)@ == after_claim(old(self)@, live, fresh),
    {
        if self.inflight.is_some() && live {
            Claim::Join
        } else {
            self.inflight = Some(fresh);
            Claim::Launch
        }
    }

    /// The running fetch has finished: nothing is in flight any more.
    pub fn settle(&mut self)
        ensures
            final(self)@ is None,
    {
        self.inflight = None;
    }
}

/// Single flight: of any number of claims made before the running fetch
/// completes, at most one launches a fetch, none launches one where a fetch
/// was already in flight, and after the first of them every caller is
/// subscribed to the same fetch, the one already in flight or else the one
/// that the first caller launched.
pub proof fn lemma_single_flight<S>(inflight: Option<S>, fresh: Seq<S>)
    ensures
        launches_before_completion(inflight, fresh) <= 1,
        inflight is Some ==> launches_before_completion(inflight, fresh) == 0,
        inflight is Some ==> claims_before_completion(inflight, fresh) == inflight,
        inflight is None && fresh.len() > 0 ==> claims_before_completion(inflight, fresh) == Some(
            fresh[0],
        ),
    decreases fresh.len(),
{
    if fresh.len() > 0 {
        let next = after_claim(inflight, inflight is Some, fresh[0]);
        lemma_single_flight(next, fresh.drop_first());
    }
}

} // verus!
