//! Market events as they arrive over a channel.

use crate::data::{Feed, MarketEvent};
use tokio::sync::mpsc::error::TryRecvError;
use tokio::sync::mpsc::UnboundedReceiver;
use vstd::prelude::*;

verus! {

/// The receiving half of tokio's unbounded channel. Opaque to the verifier.
#[verifier::external_type_specification]
#[verifier::external_body]
#[verifier::reject_recursive_types(T)]
pub struct ExUnboundedReceiver<T>(UnboundedReceiver<T>);

/// Outcome of one non-blocking receive.
#[derive(Copy, Clone, Debug, PartialEq, Eq)]
pub enum Received {
    /// An event was waiting.
    Event(MarketEvent),
    /// Nothing is waiting, but a sender is still connected.
    Empty,
    /// Nothing is waiting and every sender is gone.
    Disconnected,
}

/// What one receive means for the heartbeat: an answer for the caller, or
/// `None` when the receive has to be tried again.
pub open spec fn spec_heartbeat(received: Received) -> Option<Feed<MarketEvent>> {
    match received {
        Received::Event(event) => Some(Feed::Next(event)),
        Received::Empty => None,
        Received::Disconnected => Some(Feed::Unhealthy),
    }
}

/// What one receive means for the heartbeat: an answer for the caller, or
/// `None` when the receive has to be tried again.
#[verifier::when_used_as_spec(spec_heartbeat)]
pub fn heartbeat(received: Received) -> (answer: Option<Feed<MarketEvent>>)
    ensures
        answer == spec_heartbeat(received),
{
    match received {
        Received::Event(event) => Some(Feed::Next(event)),
        Received::Empty => None,
        Received::Disconnected => Some(Feed::Unhealthy),
    }
}

/// One call of tokio's `UnboundedReceiver::try_recv`, its three outcomes told
/// apart.
///
/// Trusted: nothing is claimed of the outcome, which depends on what the
/// senders have done.
#[verifier::external_body]
fn try_receive(market_rx: &mut UnboundedReceiver<MarketEvent>) -> (received: Received) {
    match market_rx.try_recv() {
        Ok(event) => Received::Event(event),
        Err(TryRecvError::Empty) => Received::Empty,
        Err(TryRecvError::Disconnected) => Received::Disconnected,
    }
}

/// An unbounded feed drained from a channel that upstream connections fill.
pub struct MarketFeed {
    market_rx: UnboundedReceiver<MarketEvent>,
}

impl MarketFeed {
    /// A feed that drains `market_rx`.
    pub fn new(market_rx: UnboundedReceiver<MarketEvent>) -> (feed: Self)
        ensures
            feed.receiver() == market_rx,
    {
        MarketFeed { market_rx }
    }

    /// Receives once without blocking. `None` means that the channel was empty
    /// for the moment; a live feed never reports `Finished`.
    pub fn poll(&mut self) -> (answer: Option<Feed<MarketEvent>>)
        ensures
            answer != Some(Feed::<MarketEvent>::Finished),
    {
        let received: Received = try_receive(&mut self.market_rx);
        heartbeat(received)
    }

    /// Receives in a tight loop until an event arrives or the channel is found
    /// disconnected, giving up with `None` after `attempts` receives on an empty
    /// channel.
    pub fn generate_within(&mut self, attempts: u64) -> (answer: Option<Feed<MarketEvent>>)
        ensures
            answer != Some(Feed::<MarketEvent>::Finished),
            attempts == 0 ==> answer.is_none(),
    {
        let mut tried: u64 = 0;
        while tried < attempts
            invariant
                tried <= attempts,
            decreases attempts - tried,
        {
            let answer: Option<Feed<MarketEvent>> = self.poll();
            if answer.is_some() {
                return answer;
            }
            tried = tried + 1;
        }
        None
    }

    /// The receiving half of the channel that the feed drains.
    pub closed spec fn receiver(&self) -> UnboundedReceiver<MarketEvent> {
        self.market_rx
    }
}

} // verus!
