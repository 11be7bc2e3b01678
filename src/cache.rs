//! The expiring single-flight cache.
//!
//! A [`Cached`] holds one value, fetched on demand, together with the instant
//! at which it expires. Instants are readings of a monotonic clock in
//! nanoseconds and durations are nanoseconds; the runtime reads the clock and
//! hands the reading in. While a fetch runs the cache records the runtime's
//! handle to it, of type `R`, so that later callers join that fetch instead of
//! starting their own.
use vstd::prelude::*;

verus! {

/// The three states of a cache.
#[derive(Debug)]
pub enum Slot<T, R> {
    /// Nothing is cached and no fetch is running.
    Empty,
    /// A fetch is running; callers join it through this handle.
    Inflight(R),
    /// A value is cached until `expires` (`None`: for ever).
    Cached { value: T, expires: Option<u64> },
}

/// What a reader of the cache should do.
#[derive(Debug, Clone, Copy, PartialEq, Eq, Structural)]
pub enum Lookup {
    /// A valid value is cached: serve a copy of it, without waiting.
    Hit,
    /// A fetch is running: wait for its result.
    Join,
    /// Nothing valid is cached and nothing runs: start a fetch.
    Launch,
}

/// A value that expires at `expires` is still valid at `now`; one that
/// expires exactly now is valid.
pub open spec fn still_valid(expires: Option<u64>, now: u64) -> bool {
    match expires {
        None => true,
        Some(e) => now <= e,
    }
}

/// The instant at which a value fetched at `now` expires: `now` plus the
/// cache's lifetime, held at the clock's largest reading.
pub open spec fn expiry_of(now: u64, lifetime: Option<u64>) -> Option<u64> {
    match lifetime {
        None => None,
        Some(d) => Some(
            if now + d <= u64::MAX {
                (now + d) as u64
            } else {
                u64::MAX
            },
        ),
    }
}

/// The value that the cache serves at `now` without a fetch, if any.
pub open spec fn fresh_value<T, R>(slot: Slot<T, R>, now: u64) -> Option<T> {
    match slot {
        Slot::Cached { value, expires } => if still_valid(expires, now) {
            Some(value)
        } else {
            None
        },
        _ => None,
    }
}

/// What a reader at `now` does, given the state of the cache.
pub open spec fn lookup_of<T, R>(slot: Slot<T, R>, now: u64) -> Lookup {
    match slot {
        Slot::Inflight(_) => Lookup::Join,
        Slot::Cached { value, expires } => if still_valid(expires, now) {
            Lookup::Hit
        } else {
            Lookup::Launch
        },
        Slot::Empty => Lookup::Launch,
    }
}

/// A cache of one value with a fixed lifetime.
#[derive(Debug)]
pub struct Cached<T, R> {
    slot: Slot<T, R>,
    expiration: Option<u64>,
}

impl<T, R> Cached<T, R> {
    /// The state of the cache.
    pub closed spec fn slot(&self) -> Slot<T, R> {
        self.slot
    }

    /// How long a freshly fetched value stays valid (`None`: for ever).
    pub closed spec fn lifetime(&self) -> Option<u64> {
        self.expiration
    }

    /// An empty cache whose values live for `expiration`.
    pub fn new(expiration: Option<u64>) -> (r: Self)
        ensures
            r.slot() is Empty,
            r.lifetime() == expiration,
    {
        Cached { slot: Slot::Empty, expiration }
    }

    /// A cache that holds `value`, fetched at `now`.
    pub fn new_with_value(value: T, expiration: Option<u64>, now: u64) -> (r: Self)
        ensures
            r.slot() == (Slot::<T, R>::Cached { value, expires: expiry_of(now, expiration) }),
            r.lifetime() == expiration,
    {
        let expires = expires_at(now, expiration);
        Cached { slot: Slot::Cached { value, expires }, expiration }
    }

    /// How long a freshly fetched value stays valid.
    pub fn expiration(&self) -> (r: Option<u64>)
        ensures
            r == self.lifetime(),
    {
        self.expiration
    }

    /// What a reader at `now` should do. Reading never changes the cache.
    pub fn lookup(&self, now: u64) -> (r: Lookup)
        ensures
            r == lookup_of(self.slot(), now),
    {
        match &self.slot {
            Slot::Empty => Lookup::Launch,
            Slot::Inflight(_) => Lookup::Join,
            Slot::Cached { value: _, expires } => {
                if valid_at(*expires, now) {
                    Lookup::Hit
                } else {
                    Lookup::Launch
                }
            },
        }
    }

    /// The value served at `now` without a fetch, if one is cached and valid.
    pub fn peek(&self, now: u64) -> (r: Option<&T>)
        ensures
            r is Some <==> fresh_value(self.slot(), now) is Some,
            r is Some ==> *r.unwrap() == fresh_value(self.slot(), now).unwrap(),
    {
        match &self.slot {
            Slot::Cached { value, expires } => {
                if valid_at(*expires, now) {
                    Some(value)
                } else {
                    None
                }
            },
            _ => None,
        }
    }

    /// The handle of the running fetch, if one is running.
    pub fn inflight(&self) -> (r: Option<&R>)
        ensures
            r is Some <==> self.slot() is Inflight,
            r is Some ==> self.slot() == Slot::<T, R>::Inflight(*r.unwrap()),
    {
        match &self.slot {
            Slot::Inflight(handle) => Some(handle),
            _ => None,
        }
    }

    /// Apply `f` to the value served at `now`, if one is cached and valid.
    /// This never starts a fetch.
    pub fn map_cached<U, F: FnOnce(&T) -> U>(&self, now: u64, f: F) -> (r: Option<U>)
        requires
            forall|v: &T| f.requires((v,)),
        ensures
            r is Some <==> fresh_value(self.slot(), now) is Some,
            r is Some ==> f.ensures((&fresh_value(self.slot(), now).unwrap(),), r.unwrap()),
    {
        match &self.slot {
            Slot::Cached { value, expires } => {
                if valid_at(*expires, now) {
                    Some(f(value))
                } else {
                    None
                }
            },
            _ => None,
        }
    }

    /// Record `fresh` as the running fetch, where a reader at `now` was told
    /// to launch one. Readers that come later join it.
    pub fn launch(&mut self, now: u64, fresh: R)
        requires
            lookup_of(old(self).slot(), now) == Lookup::Launch,
        ensures
            final(self).slot() == Slot::<T, R>::Inflight(fresh),
            final(self).lifetime() == old(self).lifetime(),
    {
        self.slot = Slot::Inflight(fresh);
    }

    /// A fetch has produced `value` at `now`: cache it with a new expiry.
    ///
    /// This holds in every state, also after a [`Cached::clear`] that came
    /// while the fetch was running.
    pub fn complete(&mut self, value: T, now: u64)
        ensures
            final(self).slot() == (Slot::<T, R>::Cached {
                value,
                expires: expiry_of(now, old(self).lifetime()),
            }),
            final(self).lifetime() == old(self).lifetime(),
    {
        let expires = expires_at(now, self.expiration);
        self.slot = Slot::Cached { value, expires };
    }

    /// Forget the cached value, or the running fetch, whatever the state.
    /// A running fetch is not cancelled: its result still lands.
    pub fn clear(&mut self)
        ensures
            final(self).slot() is Empty,
            final(self).lifetime() == old(self).lifetime(),
    {
        self.slot = Slot::Empty;
    }
}

impl<V, E, R> Cached<Result<V, E>, R> {
    /// Forget a failure that is cached and valid at `now`, so that the next
    /// reader fetches again instead of being served the failure; anything
    /// else stays as it is.
    pub fn clear_if_error(&mut self, now: u64)
        ensures
            (match fresh_value(old(self).slot(), now) {
                Some(Err(_)) => final(self).slot() is Empty,
                _ => final(self).slot() == old(self).slot(),
            }),
            final(self).lifetime() == old(self).lifetime(),
    {
        let failed = match &self.slot {
            Slot::Cached { value: Err(_), expires } => valid_at(*expires, now),
            _ => false,
        };
        if failed {
            self.slot = Slot::Empty;
        }
    }
}

/// Whether a value that expires at `expires` is still valid at `now`.
pub fn valid_at(expires: Option<u64>, now: u64) -> (r: bool)
    ensures
        r == still_valid(expires, now),
{
    match expires {
        None => true,
        Some(e) => now <= e,
    }
}

/// The instant at which a value fetched at `now` expires.
pub fn expires_at(now: u64, lifetime: Option<u64>) -> (r: Option<u64>)
    ensures
        r == expiry_of(now, lifetime),
{
    match lifetime {
        None => None,
        Some(d) => Some(now.saturating_add(d)),
    }
}

/// Fast path: a reader that finds a valid value is served it, starts no
/// fetch and leaves the cache as it was.
pub proof fn lemma_fast_path<T, R>(c: Cached<T, R>, now: u64, fresh: R)
    requires
        fresh_value(c.slot(), now) is Some,
    ensures
        lookup_of(c.slot(), now) == Lookup::Hit,
        serve_one(c.slot(), now, fresh) == c.slot(),
{
}

/// Expiry: a value fetched at `t0` by a cache whose values live for `d` is
/// served without a fetch at every reading from `t0` to `t0 + d`; of any
/// readers that come after `t0 + d`, while no fetch completes, exactly one
/// starts a fetch.
pub proof fn lemma_expiry<T, R>(value: T, t0: u64, d: u64, t: u64, calls: Seq<(u64, R)>)
    requires
        t0 + d <= u64::MAX,
        calls.len() > 0,
        calls[0].0 > t0 + d,
    ensures
        ({
            let slot = Slot::<T, R>::Cached { value, expires: expiry_of(t0, Some(d)) };
            &&& t0 <= t <= t0 + d ==> lookup_of(slot, t) == Lookup::Hit && fresh_value(slot, t)
                == Some(value)
            &&& t > t0 + d ==> lookup_of(slot, t) == Lookup::Launch
            &&& fetches(slot, calls) == 1
        }),
{
    let slot = Slot::<T, R>::Cached { value, expires: expiry_of(t0, Some(d)) };
    lemma_single_flight(Slot::<T, R>::Inflight(calls[0].1), calls.drop_first());
    assert(serve_one(slot, calls[0].0, calls[0].1) == Slot::<T, R>::Inflight(calls[0].1));
}

/// After a clear the next reader always starts a fetch, whatever the cache
/// held before and whenever the reader comes.
pub proof fn lemma_clear_then_refetch<T, R>(c: Cached<T, R>, now: u64)
    requires
        c.slot() is Empty,
    ensures
        lookup_of(c.slot(), now) == Lookup::Launch,
        fresh_value(c.slot(), now) is None,
{
}

/// Nothing is served without a fetch from an empty cache, from one whose
/// fetch is running, or from one whose value has expired.
pub proof fn lemma_map_without_fetch<T, R>(slot: Slot<T, R>, now: u64)
    ensures
        slot is Empty ==> fresh_value(slot, now) is None,
        slot is Inflight ==> fresh_value(slot, now) is None,
        slot is Cached && !still_valid(slot->expires, now) ==> fresh_value(slot, now) is None,
{
}

/// The states that readers leave behind, one after another, while no fetch
/// completes; reader `i` comes at `calls[i].0` with the handle `calls[i].1`.
pub open spec fn serve_all<T, R>(slot: Slot<T, R>, calls: Seq<(u64, R)>) -> Slot<T, R>
    decreases calls.len(),
{
    if calls.len() == 0 {
        slot
    } else {
        serve_all(serve_one(slot, calls[0].0, calls[0].1), calls.drop_first())
    }
}

/// The state after one reader at `now`, launching `fresh` where a fetch was due.
pub open spec fn serve_one<T, R>(slot: Slot<T, R>, now: u64, fresh: R) -> Slot<T, R> {
    match lookup_of(slot, now) {
        Lookup::Launch => Slot::Inflight(fresh),
        _ => slot,
    }
}

/// How many of those readers start a fetch.
pub open spec fn fetches<T, R>(slot: Slot<T, R>, calls: Seq<(u64, R)>) -> nat
    decreases calls.len(),
{
    if calls.len() == 0 {
        0
    } else {
        (if lookup_of(slot, calls[0].0) == Lookup::Launch { 1nat } else { 0nat }) + fetches(
            serve_one(slot, calls[0].0, calls[0].1),
            calls.drop_first(),
        )
    }
}

/// Single flight: however many readers come while no fetch completes, at
/// most one of them starts a fetch; where a fetch is already running none
/// does, and all of them wait for that same fetch.
pub proof fn lemma_single_flight<T, R>(slot: Slot<T, R>, calls: Seq<(u64, R)>)
    ensures
        fetches(slot, calls) <= 1,
        slot is Inflight ==> fetches(slot, calls) == 0 && serve_all(slot, calls) == slot,
        slot is Inflight ==> forall|i: int|
            0 <= i < calls.len() ==> lookup_of(slot, #[trigger] calls[i].0) == Lookup::Join,
        calls.len() > 0 && lookup_of(slot, calls[0].0) == Lookup::Launch ==> serve_all(slot, calls)
            == Slot::<T, R>::Inflight(calls[0].1),
    decreases calls.len(),
{
    if calls.len() > 0 {
        lemma_single_flight(serve_one(slot, calls[0].0, calls[0].1), calls.drop_first());
    }
}

} // verus!
