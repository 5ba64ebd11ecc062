//! The dispatcher: resolves a source, asks the governor for a slot, names
//! the address to send to, and classifies what came back.
use vstd::prelude::*;
use crate::governor::{decide, spaced, RateState, Slot};
use crate::registry::{position_of, registered, resolved, Registry, Source, SourceEntry};

verus! {

/// Why a request failed.
#[derive(Debug, Clone, PartialEq, Eq)]
pub enum RequesterError {
    /// No source of this name was registered.
    UnknownSource(String),
    /// The request never got a response (connection, timeout, name lookup).
    Transport(String),
    /// The response had a status that is neither success nor rate limiting.
    Status(u16),
    /// The remote side reported that its rate limit was exceeded.
    RateLimited,
}

/// What the caller of a request is to do next.
#[derive(Debug, Clone, PartialEq, Eq)]
pub enum Dispatch {
    /// Send the request to this address now.
    Send(String),
    /// Wait until this time (milliseconds) and ask again.
    Wait(u64),
}

/// What came of a request that was sent.
#[derive(Debug, Clone, PartialEq, Eq)]
pub enum Outcome {
    /// No response arrived; the text describes the failure.
    Transport(String),
    /// A response arrived with this status code.
    Responded(u16),
}

/// The status code with which a remote side reports a rate limit exceeded.
pub const TOO_MANY_REQUESTS: u16 = 429;

pub open spec fn is_success(code: u16) -> bool {
    200 <= code <= 299
}

/// The classification of an outcome: the status code on success, else the
/// error that it stands for.
pub open spec fn classified(o: Outcome) -> Result<u16, RequesterError> {
    match o {
        Outcome::Transport(msg) => Err(RequesterError::Transport(msg)),
        Outcome::Responded(code) => if is_success(code) {
            Ok(code)
        } else if code == TOO_MANY_REQUESTS {
            Err(RequesterError::RateLimited)
        } else {
            Err(RequesterError::Status(code))
        },
    }
}

/// Classifies the outcome of a sent request. Nothing is retried here.
pub fn classify(outcome: Outcome) -> (r: Result<u16, RequesterError>)
    ensures
        r == classified(outcome),
{
    match outcome {
        Outcome::Transport(msg) => Err(RequesterError::Transport(msg)),
        Outcome::Responded(code) => if 200 <= code && code <= 299 {
            Ok(code)
        } else if code == TOO_MANY_REQUESTS {
            Err(RequesterError::RateLimited)
        } else {
            Err(RequesterError::Status(code))
        },
    }
}

/// The default minimum interval of the well-known sources, in milliseconds.
pub const DEFAULT_INTERVAL_MS: u64 = 250;

/// The registry of sources together with the throttle state of each.
pub struct RateLimitedRequester {
    registry: Registry,
    rates: Vec<RateState>,
}

/// `post` arose from `pre` by a request to source `a`: the registry is the
/// same, and no other source's dispatches changed.
pub open spec fn only_touches(pre: &RateLimitedRequester, post: &RateLimitedRequester, a: Seq<char>) -> bool {
    &&& post@ == pre@
    &&& forall|n: Seq<char>| n != a ==> #[trigger] post.dispatches(n) == pre.dispatches(n)
}

impl RateLimitedRequester {
    /// The registered sources, by name.
    pub closed spec fn view(&self) -> Map<Seq<char>, SourceEntry> {
        self.registry@
    }

    /// The times of every request dispatched to source `n`, oldest first;
    /// empty for an unregistered name.
    pub closed spec fn dispatches(&self, n: Seq<char>) -> Seq<u64> {
        match position_of(self.registry.entries(), n) {
            Some(i) => self.rates@[i].history(),
            None => Seq::empty(),
        }
    }

    pub closed spec fn wf(&self) -> bool {
        &&& self.registry.wf()
        &&& self.rates@.len() == self.registry.entries().len()
        &&& forall|i: int|
            0 <= i < self.rates@.len() ==> #[trigger] self.rates@[i].wf(
                self.registry.entries()[i].min_interval,
            )
    }

    /// A requester with no sources.
    pub fn new() -> (r: RateLimitedRequester)
        ensures
            r.wf(),
            r@ == Map::<Seq<char>, SourceEntry>::empty(),
            forall|n: Seq<char>| #[trigger] r.dispatches(n) == Seq::<u64>::empty(),
    {
        RateLimitedRequester { registry: Registry::new(), rates: Vec::new() }
    }

    /// A requester with the well-known sources registered: the metadata API
    /// as "main", its delivery-node lookup as "cdn" and the static-content
    /// host as "content", each at the default interval.
    pub fn new_with_defaults() -> (r: RateLimitedRequester)
        ensures
            r.wf(),
            r@ == registered(
                registered(
                    registered(
                        Map::empty(),
                        "main"@,
                        "https://api.mangadex.org"@,
                        DEFAULT_INTERVAL_MS,
                    ),
                    "cdn"@,
                    "https://api.mangadex.org"@,
                    DEFAULT_INTERVAL_MS,
                ),
                "content"@,
                "https://uploads.mangadex.org"@,
                DEFAULT_INTERVAL_MS,
            ),
            forall|n: Seq<char>| #[trigger] r.dispatches(n) == Seq::<u64>::empty(),
    {
        let mut r = RateLimitedRequester::new();
        r.register("main", "https://api.mangadex.org", DEFAULT_INTERVAL_MS);
        r.register("cdn", "https://api.mangadex.org", DEFAULT_INTERVAL_MS);
        r.register("content", "https://uploads.mangadex.org", DEFAULT_INTERVAL_MS);
        r
    }

    /// Registers a source unless one of that name exists already: in that
    /// case nothing changes. Returns whether the source was added.
    pub fn register(&mut self, name: &str, base_url: &str, min_interval: u64) -> (added: bool)
        requires
            old(self).wf(),
        ensures
            final(self).wf(),
            added == !old(self)@.contains_key(name@),
            final(self)@ == registered(old(self)@, name@, base_url@, min_interval),
            forall|n: Seq<char>| #[trigger] final(self).dispatches(n) == old(self).dispatches(n),
    {
        let added = self.registry.register(name, base_url, min_interval);
        if added {
            self.rates.push(RateState::new());
            proof {
                let rates = self.rates@;
                assert forall|i: int| 0 <= i < rates.len() implies #[trigger] rates[i].wf(
                    self.registry.entries()[i].min_interval,
                ) by {
                    if i < rates.len() - 1 {
                        assert(self.registry.entries()[i] == old(self).registry.entries()[i]);
                    }
                }
                assert forall|n: Seq<char>| #[trigger] self.dispatches(n) == old(self).dispatches(n) by {
                    if n != name@ {
                        if position_of(old(self).registry.entries(), n) is Some {
                            let i = position_of(old(self).registry.entries(), n)->Some_0;
                            assert(rates[i] == old(self).rates@[i]);
                        }
                    } else {
                        assert(self.dispatches(n) =~= old(self).dispatches(n));
                    }
                }
            }
        }
        added
    }

    /// Looks a source up by name.
    pub fn resolve(&self, name: &str) -> (r: Result<Source, RequesterError>)
        requires
            self.wf(),
        ensures
            match r {
                Ok(s) => resolved(self@, name@) == Some(s.entry()) && s.name@ == name@,
                Err(e) => resolved(self@, name@) is None && (e matches RequesterError::UnknownSource(n)
                    && n@ == name@),
            },
    {
        match self.registry.find(name) {
            Some(i) => {
                let s = self.registry.get(i);
                Ok(Source { name: s.name.clone(), base_url: s.base_url.clone(), min_interval: s.min_interval })
            },
            None => Err(RequesterError::UnknownSource(String::from_str(name))),
        }
    }

    /// Asks, at time `now`, to send a request for `path` to the source called
    /// `name`. An unknown source fails at once. Otherwise the governor decides:
    /// either the request may leave now, its dispatch is recorded and the
    /// address to send to is `base_url + path`; or the caller is told when to
    /// ask again. No other source is affected.
    pub fn request(&mut self, name: &str, path: &str, now: u64) -> (r: Result<Dispatch, RequesterError>)
        requires
            old(self).wf(),
        ensures
            final(self).wf(),
            only_touches(old(self), final(self), name@),
            !old(self)@.contains_key(name@) ==> final(self).dispatches(name@) == old(self).dispatches(name@)
                && (r matches Err(RequesterError::UnknownSource(n)) && n@ == name@),
            old(self)@.contains_key(name@) ==> match decide(old(self).dispatches(name@), old(self)@[name@].1, now) {
                Slot::Granted => final(self).dispatches(name@) == old(self).dispatches(name@).push(now)
                    && (r matches Ok(Dispatch::Send(u)) && u@ == old(self)@[name@].0 + path@),
                Slot::WaitUntil(t) => final(self).dispatches(name@) == old(self).dispatches(name@)
                    && r == Ok::<Dispatch, RequesterError>(Dispatch::Wait(t)),
            },
    {
        match self.registry.find(name) {
            None => Err(RequesterError::UnknownSource(String::from_str(name))),
            Some(i) => {
                let min_interval = self.registry.get(i).min_interval;
                let mut state = self.rates[i];
                assert(state.wf(min_interval));
                let slot = state.try_acquire(min_interval, now);
                self.rates.set(i, state);
                proof {
                    let rates = self.rates@;
                    assert forall|j: int| 0 <= j < rates.len() implies #[trigger] rates[j].wf(
                        self.registry.entries()[j].min_interval,
                    ) by {
                        if j != i {
                            assert(rates[j] == old(self).rates@[j]);
                        }
                    }
                    assert forall|n: Seq<char>| n != name@ implies #[trigger] self.dispatches(n)
                        == old(self).dispatches(n) by {
                        if position_of(self.registry.entries(), n) is Some {
                            let j = position_of(self.registry.entries(), n)->Some_0;
                            assert(self.registry.entries()[j].name@ == n);
                            assert(j != i);
                            assert(rates[j] == old(self).rates@[j]);
                        }
                    }
                }
                match slot {
                    Slot::Granted => {
                        let url = self.registry.get(i).base_url.clone().concat(path);
                        Ok(Dispatch::Send(url))
                    },
                    Slot::WaitUntil(t) => Ok(Dispatch::Wait(t)),
                }
            },
        }
    }
}

/// Every two consecutive requests dispatched to a source lie at least its
/// minimum interval apart, whatever sequence of calls produced the state.
pub proof fn lemma_dispatches_spaced(r: &RateLimitedRequester, name: Seq<char>, i: int)
    requires
        r.wf(),
        r@.contains_key(name),
        0 < i < r.dispatches(name).len(),
    ensures
        r.dispatches(name)[i - 1] + r@[name].1 <= r.dispatches(name)[i],
{
    let p = position_of(r.registry.entries(), name)->Some_0;
    assert(r.rates@[p].wf(r.registry.entries()[p].min_interval));
    r.rates@[p].lemma_spaced(r.registry.entries()[p].min_interval);
    assert(spaced(r.dispatches(name), r@[name].1));
}

/// Registering a name a second time, with any parameters, leaves the first
/// registration in effect.
pub proof fn lemma_register_twice_keeps_first(
    m: Map<Seq<char>, SourceEntry>,
    name: Seq<char>,
    url1: Seq<char>,
    interval1: u64,
    url2: Seq<char>,
    interval2: u64,
)
    ensures
        registered(registered(m, name, url1, interval1), name, url2, interval2) == registered(
            m,
            name,
            url1,
            interval1,
        ),
        !m.contains_key(name) ==> resolved(
            registered(registered(m, name, url1, interval1), name, url2, interval2),
            name,
        ) == Some((url1, interval1)),
{
}

/// Resolving a freshly registered source yields exactly the base address and
/// interval it was registered with.
pub proof fn lemma_resolve_registered(
    m: Map<Seq<char>, SourceEntry>,
    name: Seq<char>,
    url: Seq<char>,
    interval: u64,
)
    requires
        !m.contains_key(name),
    ensures
        resolved(registered(m, name, url, interval), name) == Some((url, interval)),
{
}

/// A request to one source leaves every other source as it was: its
/// dispatches, its registration and what the governor would answer for it at
/// any time.
pub proof fn lemma_sources_independent(
    pre: &RateLimitedRequester,
    post: &RateLimitedRequester,
    a: Seq<char>,
    b: Seq<char>,
    now: u64,
)
    requires
        only_touches(pre, post, a),
        a != b,
        pre@.contains_key(b),
    ensures
        post.dispatches(b) == pre.dispatches(b),
        post@[b] == pre@[b],
        decide(post.dispatches(b), post@[b].1, now) == decide(pre.dispatches(b), pre@[b].1, now),
{
}

} // verus!
