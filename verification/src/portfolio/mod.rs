//! The portfolio: orders, positions and cash.

use crate::data::MarketEvent;
use crate::execution::Trade;
use crate::model::Instrument;
use crate::portfolio::error::PortfolioError;
use crate::portfolio::order::{Order, Request};
use crate::portfolio::position::{Position, PositionExit, PositionUpdate};
use crate::strategy::{Signal, SignalForceExit};
use vstd::prelude::*;

/// Logic for order quantity allocation.
pub mod allocator;

/// Portfolio module specific errors.
pub mod error;

/// The state of a portfolio as a mathematical value, the outcome of each
/// operation on it, and the laws of the ledger.
pub mod ledger;

/// Orders and their lifecycle.
pub mod order;

/// Logic for evaluating the risk associated with a proposed order.
pub mod risk;

/// Core portfolio logic: the ledger of cash, positions and orders, which
/// implements [`MarketUpdater`], [`OrderGenerator`] and [`FillUpdater`].
pub mod portfolio;

/// Data structures encapsulating the state of a trading position, as well as
/// the logic for entering, updating and exiting them.
pub mod position;

verus! {

/// State with an invariant: whoever works on it finds it in order and leaves
/// it in order.
pub trait Consistent {
    /// Whether the state is in order.
    spec fn consistent(&self) -> bool;
}

/// Updates the portfolio from an input [`MarketEvent`].
pub trait MarketUpdater: Consistent {
    /// Determines if the portfolio has an open position relating to the input
    /// [`MarketEvent`]. If so it updates it using the market data, and returns
    /// a [`PositionUpdate`] detailing the changes.
    fn update_from_market(&mut self, market: &MarketEvent) -> (updated: Result<
        Option<PositionUpdate>,
        PortfolioError,
    >)
        requires
            old(self).consistent(),
        ensures
            final(self).consistent(),
    ;
}

/// May generate an order from an input advisory [`Signal`].
pub trait OrderGenerator: Consistent {
    /// May generate an order after analysing an input advisory [`Signal`].
    fn generate_order(&mut self, signal: &Signal) -> (generated: Result<
        Option<Order<Request>>,
        PortfolioError,
    >)
        requires
            old(self).consistent(),
        ensures
            final(self).consistent(),
    ;

    /// Generates an exit order if there is an open position associated with
    /// the input [`SignalForceExit`].
    fn generate_exit_order(&mut self, signal: SignalForceExit) -> (generated: Result<
        Option<Order<Request>>,
        PortfolioError,
    >)
        requires
            old(self).consistent(),
        ensures
            final(self).consistent(),
    ;
}

/// Updates the portfolio from an input [`Trade`].
pub trait FillUpdater: Consistent {
    /// Updates the portfolio state using the input [`Trade`]. The trade enters,
    /// changes or exits a position, and moves cash accordingly.
    fn update_from_trade(&mut self, trade: &Trade) -> (booked: Result<
        Vec<AccountEvent>,
        PortfolioError,
    >)
        requires
            old(self).consistent(),
        ensures
            final(self).consistent(),
    ;
}

/// Cash of the portfolio in one currency.
#[derive(Copy, Clone, Debug, PartialEq, Eq)]
pub struct Balance {
    /// The currency.
    pub instrument: Instrument,
    /// All the cash: what is free and what is used.
    pub total: u64,
    /// Cash that new orders can draw on.
    pub free: u64,
    /// Cash set aside for orders that have not ended.
    pub used: u64,
}

impl Balance {
    /// The total is what is free plus what is used.
    pub open spec fn consistent(&self) -> bool {
        self.total == self.free + self.used
    }
}

/// Notice of a change in the ledger.
#[derive(Copy, Clone, Debug, PartialEq, Eq)]
pub enum AccountEvent {
    /// A position was entered.
    PositionOpened(Position),
    /// A position grew or shrank.
    PositionChanged(Position),
    /// A position was closed.
    PositionClosed(PositionExit),
    /// Cash moved.
    BalanceChanged(Balance),
}

} // verus!
