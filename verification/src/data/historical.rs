//! Replay of market events that were loaded beforehand.

use crate::data::{Feed, MarketEvent, MarketGenerator};
use vstd::prelude::*;

verus! {

/// What a pull yields from a feed that still holds `remaining`.
pub open spec fn next_of(remaining: Seq<MarketEvent>) -> Feed<MarketEvent> {
    if remaining.len() == 0 {
        Feed::Finished
    } else {
        Feed::Next(remaining[0])
    }
}

/// What a feed that held `remaining` holds after one pull.
pub open spec fn rest_of(remaining: Seq<MarketEvent>) -> Seq<MarketEvent> {
    if remaining.len() == 0 {
        remaining
    } else {
        remaining.drop_first()
    }
}

/// What a feed that held `remaining` holds after `pulls` pulls.
pub open spec fn rest_after(remaining: Seq<MarketEvent>, pulls: nat) -> Seq<MarketEvent>
    decreases pulls,
{
    if pulls == 0 {
        remaining
    } else {
        rest_after(rest_of(remaining), (pulls - 1) as nat)
    }
}

/// A finite, ordered feed over events already in memory.
pub struct MarketFeed {
    events: Vec<MarketEvent>,
    cursor: usize,
}

impl MarketFeed {
    #[verifier::type_invariant]
    spec fn cursor_in_range(self) -> bool {
        self.cursor <= self.events.len()
    }

    /// The events not yet pulled, oldest first.
    pub closed spec fn remaining(self) -> Seq<MarketEvent> {
        self.events@.skip(self.cursor as int)
    }

    /// Number of events not yet pulled.
    pub fn remaining_len(&self) -> (len: usize)
        ensures
            len == self.remaining().len(),
    {
        proof {
            use_type_invariant(self);
        }
        self.events.len() - self.cursor
    }

    /// A feed that replays `events` in order.
    pub fn new(events: Vec<MarketEvent>) -> (feed: Self)
        ensures
            feed.remaining() == events@,
    {
        MarketFeed { events, cursor: 0 }
    }
}

impl MarketGenerator for MarketFeed {
    /// Yields the oldest event not yet pulled; once none is left, `Finished` on
    /// this and on every later call.
    fn generate(&mut self) -> (feed: Feed<MarketEvent>)
        ensures
            feed == next_of(old(self).remaining()),
            final(self).remaining() == rest_of(old(self).remaining()),
    {
        proof {
            use_type_invariant(&*self);
        }
        if self.cursor < self.events.len() {
            let event: MarketEvent = self.events[self.cursor];
            self.cursor = self.cursor + 1;
            Feed::Next(event)
        } else {
            Feed::Finished
        }
    }
}

/// Pulling a feed replays its events in order and then reports `Finished` for
/// good: pull number `pulls` (counted from zero) yields event number `pulls`
/// while there is one, and `Finished` ever after.
pub proof fn lemma_replay_in_order_then_finished(remaining: Seq<MarketEvent>, pulls: nat)
    ensures
        pulls < remaining.len() ==> next_of(rest_after(remaining, pulls)) == Feed::Next(
            remaining[pulls as int],
        ),
        pulls >= remaining.len() ==> next_of(rest_after(remaining, pulls)) == Feed::<
            MarketEvent,
        >::Finished,
        pulls >= remaining.len() ==> rest_after(remaining, pulls).len() == 0,
    decreases pulls,
{
    if pulls > 0 {
        lemma_replay_in_order_then_finished(rest_of(remaining), (pulls - 1) as nat);
    }
}

/// An exhausted feed stays exhausted: however often it is pulled, it yields
/// `Finished` and holds what it held.
pub proof fn lemma_exhausted_feed_stays_finished(remaining: Seq<MarketEvent>, pulls: nat)
    requires
        remaining.len() == 0,
    ensures
        next_of(rest_after(remaining, pulls)) == Feed::<MarketEvent>::Finished,
        rest_after(remaining, pulls) == remaining,
    decreases pulls,
{
    if pulls > 0 {
        lemma_exhausted_feed_stays_finished(rest_of(remaining), (pulls - 1) as nat);
    }
}

} // verus!
