//! Execution of orders: what comes back when an order has been carried out.

use crate::data::MarketMeta;
use crate::execution::error::ExecutionError;
use crate::fixed::{abs_i64, magnitude, mul_scaled_wide, scaled_product};
use crate::model::{Exchange, Instrument, Side};
use crate::portfolio::order::{ClientOrderId, Order, Request};
use vstd::prelude::*;

/// Execution module specific errors.
pub mod error;

/// Simulated execution of orders.
pub mod simulated;

verus! {

/// Gross value of a fill: the size of the quantity times the price, whatever
/// the sign of the quantity.
pub open spec fn fill_value_gross(quantity: int, price: int) -> int {
    scaled_product(magnitude(quantity), price)
}

/// Fee that the fraction `pct` takes of a gross value.
pub open spec fn fee(pct: int, gross: int) -> int {
    scaled_product(pct, gross)
}

/// Generates a result [`FillEvent`] by executing an order.
pub trait ExecutionClient {
    /// Returns a [`FillEvent`] from executing the input order. Whoever executes
    /// it, the gross value of the fill is the size of its quantity times its
    /// price.
    fn generate_fill(&self, order: &Order<Request>) -> (filled: Result<FillEvent, ExecutionError>)
        ensures
            filled matches Ok(fill) ==> fill.fill_value_gross == fill_value_gross(
                fill.quantity as int,
                fill.market_meta.close as int,
            ),
    ;
}

/// Identifier of a trade.
#[derive(Copy, Clone, Debug, PartialEq, Eq, Hash, Structural)]
pub struct TradeId(pub u64);

/// Identifier that the venue gives an order.
#[derive(Copy, Clone, Debug, PartialEq, Eq, Hash, Structural)]
pub struct OrderId(pub u64);

/// Fees of a fill, or the fractions of a gross value that make them up. Each
/// is a fixed-point amount.
#[derive(Copy, Clone, Debug, PartialEq, Eq)]
pub struct Fees {
    /// Fee taken by the exchange.
    pub exchange: u64,
    /// Cost of the order moving the market.
    pub slippage: u64,
    /// Fee taken by the network that settles the trade.
    pub network: u64,
}

impl Fees {
    /// Sum of the three fees.
    pub open spec fn total(&self) -> int {
        self.exchange + self.slippage + self.network
    }
}

/// Record of an executed order, in full or in part.
#[derive(Copy, Clone, Debug, PartialEq, Eq)]
pub struct Trade {
    pub id: TradeId,
    pub order_id: OrderId,
    pub client_order_id: ClientOrderId,
    pub instrument: Instrument,
    pub side: Side,
    /// Price, in fixed-point quote units per whole base unit.
    pub price: u64,
    /// Fixed-point quantity filled; positive bought, negative sold.
    pub quantity: i64,
    pub fees: Fees,
}

/// Cash that a trade takes out of a portfolio: for a purchase its gross value
/// and its fees, for a sale its fees less its gross value (negative where the
/// sale brings cash in).
pub open spec fn cash_flow(trade: Trade) -> int {
    if trade.quantity > 0 {
        trade.gross() + trade.fees.total()
    } else {
        trade.fees.total() - trade.gross()
    }
}

impl Trade {
    /// Gross value of the trade.
    pub open spec fn gross(&self) -> int {
        fill_value_gross(self.quantity as int, self.price as int)
    }

    /// Cash that the trade takes out of a portfolio; negative where it brings
    /// cash in.
    pub fn cash_flow(&self) -> (flow: i128)
        ensures
            flow == cash_flow(*self),
            -0x1_0000_0000_0000_0000_0000_0000_0000 < flow < 0x1_0000_0000_0000_0000_0000_0000_0000,
    {
        let gross: i128 = mul_scaled_wide(abs_i64(self.quantity), self.price) as i128;
        let fees: i128 = self.fees.exchange as i128 + self.fees.slippage as i128
            + self.fees.network as i128;
        if self.quantity > 0 {
            gross + fees
        } else {
            fees - gross
        }
    }
}

/// What an execution client reports of an order it has carried out.
#[derive(Copy, Clone, Debug, PartialEq, Eq)]
pub struct FillEvent {
    /// Time of the fill, in milliseconds since the Unix epoch.
    pub timestamp: i64,
    pub exchange: Exchange,
    pub instrument: Instrument,
    pub client_order_id: ClientOrderId,
    /// Metadata propagated from the order; its close is the price of the fill.
    pub market_meta: MarketMeta,
    pub side: Side,
    /// Fixed-point quantity filled; positive bought, negative sold.
    pub quantity: i64,
    /// Size of the quantity times the price.
    pub fill_value_gross: u64,
    pub fees: Fees,
}

impl FillEvent {
    /// The fill as a trade. A fill answers one order in one piece, so the trade
    /// and the venue's order both go by the number of the client's order.
    pub open spec fn spec_trade(&self) -> Trade {
        Trade {
            id: TradeId(self.client_order_id.0),
            order_id: OrderId(self.client_order_id.0),
            client_order_id: self.client_order_id,
            instrument: self.instrument,
            side: self.side,
            price: self.market_meta.close,
            quantity: self.quantity,
            fees: self.fees,
        }
    }

    /// The fill as a trade, for the portfolio to book.
    #[verifier::when_used_as_spec(spec_trade)]
    pub fn trade(&self) -> (trade: Trade)
        ensures
            trade == self.spec_trade(),
    {
        Trade {
            id: TradeId(self.client_order_id.0),
            order_id: OrderId(self.client_order_id.0),
            client_order_id: self.client_order_id,
            instrument: self.instrument,
            side: self.side,
            price: self.market_meta.close,
            quantity: self.quantity,
            fees: self.fees,
        }
    }
}

} // verus!
