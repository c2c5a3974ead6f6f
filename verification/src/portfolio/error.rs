//! Errors of the portfolio.

use crate::portfolio::order::OrderState;
use vstd::prelude::*;

verus! {

/// All errors generated in the portfolio module.
#[derive(Copy, Clone, Debug, PartialEq, Eq)]
pub enum PortfolioError {
    /// The configuration handed to the constructor cannot run a portfolio.
    ConfigInvalid,
    /// The ledger has no record of the order that was referred to.
    UnknownOrder,
    /// The instrument named is not the one the order was written for.
    UnknownInstrument,
    /// The order has been filled or cancelled and takes nothing more.
    OrderClosed,
    /// The trade names no quantity, or a side that contradicts its quantity or
    /// its order.
    TradeInvalid,
    /// The trade would fill more than the order asked for.
    Overfill,
    /// An amount would leave the range the ledger can book.
    Overflow,
    /// The trade would take more cash than is free.
    InsufficientFunds,
    /// The order lifecycle has no step from the first state to the second.
    IllegalTransition(OrderState, OrderState),
}

} // verus!
