//! Simulated execution: every order fills at once, in full, at the price the
//! market was last seen at.

use crate::clock::utc_now_millis;
use crate::execution::error::ExecutionError;
use crate::execution::{fee, fill_value_gross, ExecutionClient, Fees, FillEvent};
use crate::fixed::{abs_i64, magnitude, mul_scaled, SCALE};
use crate::portfolio::order::{Order, Request};
use vstd::prelude::*;

verus! {

/// Generates the [`FillEvent`] that executing an order at a given time gives.
pub trait FillGenerator {
    /// Returns the [`FillEvent`] from executing the input order at `timestamp`.
    fn generate_fill_at(&self, order: &Order<Request>, timestamp: i64) -> Result<
        FillEvent,
        ExecutionError,
    >;
}

/// Configuration for constructing a [`SimulatedExecution`].
#[derive(Copy, Clone, Debug, PartialEq, Eq)]
pub struct Config {
    /// Fraction of the gross value that each fee takes, as fixed-point factors
    /// (a hundredth of `SCALE` stands for 1%).
    pub simulated_fees_pct: Fees,
}

/// Simulated execution handler that executes orders to generate [`FillEvent`]s
/// via a simulated broker interaction.
#[derive(Copy, Clone, Debug, PartialEq, Eq)]
pub struct SimulatedExecution {
    fees_pct: Fees,
}

/// The fees that the fee fractions `fees_pct` take of the gross value `gross`,
/// each the product of its fraction and the gross value, rounded down; `None`
/// where one of them is too large to book.
pub open spec fn simulated_fees(fees_pct: Fees, gross: int) -> Option<Fees> {
    let exchange = fee(fees_pct.exchange as int, gross);
    let slippage = fee(fees_pct.slippage as int, gross);
    let network = fee(fees_pct.network as int, gross);
    if exchange <= u64::MAX && slippage <= u64::MAX && network <= u64::MAX {
        Some(Fees { exchange: exchange as u64, slippage: slippage as u64, network: network as u64 })
    } else {
        None
    }
}

/// The gross value at which simulated execution fills `order`: the size of
/// its quantity times the observed close price; `None` where it is too large
/// to book.
pub open spec fn simulated_gross(order: Order<Request>) -> Option<u64> {
    let gross = fill_value_gross(order.state.quantity as int, order.market_meta.close as int);
    if gross <= u64::MAX {
        Some(gross as u64)
    } else {
        None
    }
}

/// What simulated execution with the fee fractions `fees_pct` makes of `order`
/// at `timestamp`: a fill of the whole quantity at the observed close price,
/// unless the gross value or a fee is too large to book.
pub open spec fn simulated_fill(fees_pct: Fees, order: Order<Request>, timestamp: i64) -> Result<
    FillEvent,
    ExecutionError,
> {
    match simulated_gross(order) {
        Some(gross) => match simulated_fees(fees_pct, gross as int) {
            Some(fees) => Ok(
                FillEvent {
                    timestamp,
                    exchange: order.exchange,
                    instrument: order.instrument,
                    client_order_id: order.client_order_id,
                    market_meta: order.market_meta,
                    side: order.state.side,
                    quantity: order.state.quantity,
                    fill_value_gross: gross,
                    fees,
                },
            ),
            None => Err(ExecutionError::Overflow),
        },
        None => Err(ExecutionError::Overflow),
    }
}

impl SimulatedExecution {
    /// The fee fractions that the handler was made with.
    pub closed spec fn fees_pct(&self) -> Fees {
        self.fees_pct
    }

    /// Constructs a new [`SimulatedExecution`] component.
    pub fn new(cfg: &Config) -> (execution: Self)
        ensures
            execution.fees_pct() == cfg.simulated_fees_pct,
    {
        SimulatedExecution { fees_pct: cfg.simulated_fees_pct }
    }

    /// Calculates the simulated gross fill value (excluding fees) of the input
    /// order; `None` when it is too large to book.
    pub fn calculate_fill_value_gross(order: &Order<Request>) -> (gross: Option<u64>)
        ensures
            gross == simulated_gross(*order),
    {
        mul_scaled(abs_i64(order.state.quantity), order.market_meta.close)
    }

    /// Calculates the simulated [`Fees`] that a fill of the gross value
    /// `fill_value_gross` incurs; `None` when one of them is too large to book.
    pub fn calculate_fees(&self, fill_value_gross: u64) -> (fees: Option<Fees>)
        ensures
            fees == simulated_fees(self.fees_pct(), fill_value_gross as int),
    {
        let exchange: Option<u64> = mul_scaled(self.fees_pct.exchange, fill_value_gross);
        let slippage: Option<u64> = mul_scaled(self.fees_pct.slippage, fill_value_gross);
        let network: Option<u64> = mul_scaled(self.fees_pct.network, fill_value_gross);
        match (exchange, slippage, network) {
            (Some(exchange), Some(slippage), Some(network)) => Some(
                Fees { exchange, slippage, network },
            ),
            _ => None,
        }
    }
}

impl FillGenerator for SimulatedExecution {
    /// Fills the whole order at the observed close price. Succeeds on every
    /// order whose gross value and fees can be booked.
    fn generate_fill_at(&self, order: &Order<Request>, timestamp: i64) -> (filled: Result<
        FillEvent,
        ExecutionError,
    >)
        ensures
            filled == simulated_fill(self.fees_pct(), *order, timestamp),
    {
        let gross: u64 = match SimulatedExecution::calculate_fill_value_gross(order) {
            Some(gross) => gross,
            None => {
                return Err(ExecutionError::Overflow);
            },
        };
        let fees: Fees = match self.calculate_fees(gross) {
            Some(fees) => fees,
            None => {
                return Err(ExecutionError::Overflow);
            },
        };
        Ok(
            FillEvent {
                timestamp,
                exchange: order.exchange,
                instrument: order.instrument,
                client_order_id: order.client_order_id,
                market_meta: order.market_meta,
                side: order.state.side,
                quantity: order.state.quantity,
                fill_value_gross: gross,
                fees,
            },
        )
    }
}

impl ExecutionClient for SimulatedExecution {
    /// Fills the whole order at the observed close price, stamped with the
    /// current time.
    fn generate_fill(&self, order: &Order<Request>) -> (filled: Result<FillEvent, ExecutionError>)
        ensures
            filled matches Ok(fill) ==> filled == simulated_fill(
                self.fees_pct(),
                *order,
                fill.timestamp,
            ),
            filled is Err ==> filled == simulated_fill(self.fees_pct(), *order, 0),
    {
        let timestamp: i64 = utc_now_millis();
        self.generate_fill_at(order, timestamp)
    }
}

/// Simulated fees are exactly the configured fractions of the gross value, and
/// the gross value is the size of the quantity times the close price: the sign
/// of the quantity does not change it.
pub proof fn lemma_simulated_fill_values(fees_pct: Fees, order: Order<Request>, timestamp: i64)
    requires
        simulated_fill(fees_pct, order, timestamp) is Ok,
    ensures
        ({
            let fill = simulated_fill(fees_pct, order, timestamp)->Ok_0;
            &&& fill.fill_value_gross == magnitude(order.state.quantity as int)
                * order.market_meta.close / (SCALE as int)
            &&& fill.fees.exchange == fees_pct.exchange * fill.fill_value_gross / (
            SCALE as int)
            &&& fill.fees.slippage == fees_pct.slippage * fill.fill_value_gross / (
            SCALE as int)
            &&& fill.fees.network == fees_pct.network * fill.fill_value_gross / (
            SCALE as int)
        }),
{
}

/// An order and the order of the opposite quantity have the same gross value.
pub proof fn lemma_gross_ignores_sign(quantity: int, price: int)
    ensures
        fill_value_gross(quantity, price) == fill_value_gross(-quantity, price),
{
}

} // verus!
