//! Market data: the events that drive the engine and the feeds that deliver them.

use crate::model::{Exchange, Instrument};
use vstd::prelude::*;

/// Historical market feed for backtesting.
pub mod historical;

/// Live market feed for dry-trading and live-trading.
pub mod live;

verus! {

/// Result of pulling a feed once.
#[derive(Debug, PartialEq, Eq)]
pub enum Feed<Event> {
    /// The next event.
    Next(Event),
    /// The feed has ended in good order and will yield nothing more.
    Finished,
    /// The feed has failed and cannot heal itself.
    Unhealthy,
}

/// Close price and timestamp of the market observation behind a downstream event.
#[derive(Copy, Clone, Debug, PartialEq, Eq)]
pub struct MarketMeta {
    /// Close price of the observation, in fixed-point quote units per whole base unit.
    pub close: u64,
    /// Time of the observation, in milliseconds since the Unix epoch.
    pub timestamp: i64,
}

/// A single market observation.
#[derive(Copy, Clone, Debug, PartialEq, Eq)]
pub struct MarketEvent {
    /// Time of the observation, in milliseconds since the Unix epoch.
    pub timestamp: i64,
    /// Venue that published the observation.
    pub exchange: Exchange,
    /// Instrument observed.
    pub instrument: Instrument,
    /// Close price, in fixed-point quote units per whole base unit.
    pub close: u64,
}

impl MarketEvent {
    /// The price and time that downstream events carry along.
    pub open spec fn spec_meta(&self) -> MarketMeta {
        MarketMeta { close: self.close, timestamp: self.timestamp }
    }

    /// The price and time that downstream events carry along.
    #[verifier::when_used_as_spec(spec_meta)]
    pub fn meta(&self) -> (meta: MarketMeta)
        ensures
            meta == self.spec_meta(),
    {
        MarketMeta { close: self.close, timestamp: self.timestamp }
    }
}

/// Generates the latest market event. Acts as the system heartbeat.
pub trait MarketGenerator {
    /// Returns the latest market event, or the terminal state the feed is in.
    fn generate(&mut self) -> Feed<MarketEvent>;
}

} // verus!
