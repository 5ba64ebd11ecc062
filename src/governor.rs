//! The rate governor: per-source throttle state, and the decision whether a
//! request to that source may leave now or must wait.
use vstd::prelude::*;

verus! {

/// What the governor tells a caller that asks for a slot.
#[derive(Debug, Clone, Copy, PartialEq, Eq)]
pub enum Slot {
    /// The request may be sent now; the dispatch has been recorded.
    Granted,
    /// The request must wait until the given time (milliseconds) and ask again.
    WaitUntil(u64),
}

/// Consecutive entries of `h` lie at least `min_interval` apart.
pub open spec fn spaced(h: Seq<u64>, min_interval: u64) -> bool {
    forall|i: int| 0 < i < h.len() ==> h[i - 1] + min_interval <= #[trigger] h[i]
}

/// The most recent dispatch of a history, if any.
pub open spec fn last_of(h: Seq<u64>) -> Option<u64> {
    if h.len() == 0 {
        None
    } else {
        Some(h.last())
    }
}

/// Whether a request may leave at `now`, given the last dispatch.
pub open spec fn slot_ready(last: Option<u64>, min_interval: u64, now: u64) -> bool {
    match last {
        None => true,
        Some(t) => t + min_interval <= now,
    }
}

/// The earliest time after `last` at which a request may leave, capped at the
/// largest representable time.
pub open spec fn deadline(last: u64, min_interval: u64) -> u64 {
    if last + min_interval <= u64::MAX {
        (last + min_interval) as u64
    } else {
        u64::MAX
    }
}

/// The governor's answer at `now` for a source with dispatch history `h`.
pub open spec fn decide(h: Seq<u64>, min_interval: u64, now: u64) -> Slot {
    if slot_ready(last_of(h), min_interval, now) {
        Slot::Granted
    } else {
        Slot::WaitUntil(deadline(h.last(), min_interval))
    }
}

/// The throttle state of one source.
#[derive(Clone, Copy)]
pub struct RateState {
    last_dispatch: Option<u64>,
    /// Every dispatch granted so far, oldest first.
    dispatches: Ghost<Seq<u64>>,
}

impl RateState {
    /// Every dispatch granted so far, oldest first.
    pub closed spec fn history(&self) -> Seq<u64> {
        self.dispatches@
    }

    /// The state is consistent, and the dispatches it granted respect
    /// `min_interval`.
    pub closed spec fn wf(&self, min_interval: u64) -> bool {
        &&& spaced(self.dispatches@, min_interval)
        &&& self.last_dispatch == last_of(self.dispatches@)
    }

    /// A well-formed state holds only well-spaced dispatches.
    pub proof fn lemma_spaced(&self, min_interval: u64)
        requires
            self.wf(min_interval),
        ensures
            spaced(self.history(), min_interval),
    {
    }

    pub fn new() -> (r: RateState)
        ensures
            forall|m: u64| r.wf(m),
            r.history() == Seq::<u64>::empty(),
    {
        RateState { last_dispatch: None, dispatches: Ghost(Seq::empty()) }
    }

    /// Asks for a slot at time `now`. When the interval since the last
    /// dispatch has elapsed, the slot is granted and `now` becomes the last
    /// dispatch; otherwise nothing changes and the caller learns when to ask
    /// again.
    pub fn try_acquire(&mut self, min_interval: u64, now: u64) -> (r: Slot)
        requires
            old(self).wf(min_interval),
        ensures
            final(self).wf(min_interval),
            r == decide(old(self).history(), min_interval, now),
            r == Slot::Granted ==> final(self).history() == old(self).history().push(now),
            r != Slot::Granted ==> final(self).history() == old(self).history(),
    {
        match self.last_dispatch {
            None => {
                self.last_dispatch = Some(now);
                self.dispatches = Ghost(self.dispatches@.push(now));
                Slot::Granted
            },
            Some(t) => {
                if now >= t && now - t >= min_interval {
                    let ghost h = self.dispatches@;
                    self.last_dispatch = Some(now);
                    self.dispatches = Ghost(h.push(now));
                    proof {
                        assert forall|i: int| 0 < i < h.push(now).len() implies h.push(now)[i - 1]
                            + min_interval <= #[trigger] h.push(now)[i] by {
                            if i < h.len() {
                                assert(h.push(now)[i - 1] == h[i - 1]);
                                assert(h.push(now)[i] == h[i]);
                            }
                        }
                        assert(h.push(now).last() == now);
                    }
                    Slot::Granted
                } else if min_interval <= u64::MAX - t {
                    Slot::WaitUntil(t + min_interval)
                } else {
                    Slot::WaitUntil(u64::MAX)
                }
            },
        }
    }
}

} // verus!
