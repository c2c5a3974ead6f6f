//! Orders and their lifecycle.
//!
//! An order is a request, then in flight, then open, and ends filled or
//! cancelled, possibly by way of a partial fill. [`Order`] carries the stage in
//! its type, so that only the steps of the lifecycle exist as functions;
//! [`OrderState`] carries it as a value, for a ledger that follows many orders.

use crate::data::MarketMeta;
use crate::model::{Exchange, Instrument, Side};
use crate::portfolio::error::PortfolioError;
use vstd::prelude::*;

verus! {

/// Identifier that the portfolio gives an order for its lifetime.
#[derive(Copy, Clone, Debug, PartialEq, Eq, Hash, Structural)]
pub struct ClientOrderId(pub u64);

/// How an order is to be executed.
#[derive(Copy, Clone, Debug, PartialEq, Eq, Hash, Structural)]
pub enum OrderKind {
    Market,
    Limit,
    PostOnly,
    ImmediateOrCancel,
}

/// Stage of an order's lifecycle.
#[derive(Copy, Clone, Debug, PartialEq, Eq, Hash, Structural)]
pub enum OrderState {
    Request,
    InFlight,
    Open,
    PartiallyFilled,
    Cancelled,
    Filled,
}

impl OrderState {
    /// Whether nothing can follow this stage.
    pub open spec fn spec_is_terminal(&self) -> bool {
        *self == OrderState::Cancelled || *self == OrderState::Filled
    }

    /// Whether the lifecycle has a step from this stage to `next`.
    pub open spec fn can_become(&self, next: OrderState) -> bool {
        match (*self, next) {
            (OrderState::Request, OrderState::InFlight) => true,
            (OrderState::InFlight, OrderState::Open) => true,
            (OrderState::Open, OrderState::Cancelled) => true,
            (OrderState::Open, OrderState::PartiallyFilled) => true,
            (OrderState::Open, OrderState::Filled) => true,
            (OrderState::PartiallyFilled, OrderState::Cancelled) => true,
            (OrderState::PartiallyFilled, OrderState::Filled) => true,
            _ => false,
        }
    }

    /// Whether nothing can follow this stage.
    #[verifier::when_used_as_spec(spec_is_terminal)]
    pub fn is_terminal(&self) -> (terminal: bool)
        ensures
            terminal == self.spec_is_terminal(),
    {
        matches!(self, OrderState::Cancelled | OrderState::Filled)
    }

    /// Takes the step to `next`, or reports that the lifecycle has no such step.
    pub fn transition(self, next: OrderState) -> (stepped: Result<OrderState, PortfolioError>)
        ensures
            stepped == (if self.can_become(next) {
                Ok::<OrderState, PortfolioError>(next)
            } else {
                Err(PortfolioError::IllegalTransition(self, next))
            }),
    {
        let legal: bool = match (self, next) {
            (OrderState::Request, OrderState::InFlight) => true,
            (OrderState::InFlight, OrderState::Open) => true,
            (OrderState::Open, OrderState::Cancelled) => true,
            (OrderState::Open, OrderState::PartiallyFilled) => true,
            (OrderState::Open, OrderState::Filled) => true,
            (OrderState::PartiallyFilled, OrderState::Cancelled) => true,
            (OrderState::PartiallyFilled, OrderState::Filled) => true,
            _ => false,
        };
        if legal {
            Ok(next)
        } else {
            Err(PortfolioError::IllegalTransition(self, next))
        }
    }
}

/// Whether each stage of `path` follows from the one before it by a step of
/// the lifecycle.
pub open spec fn legal_path(path: Seq<OrderState>) -> bool {
    forall|i: int| 0 <= i < path.len() - 1 ==> (#[trigger] path[i]).can_become(path[i + 1])
}

/// Nothing follows a terminal stage.
pub proof fn lemma_terminal_is_final(state: OrderState, next: OrderState)
    requires
        state.is_terminal(),
    ensures
        !state.can_become(next),
{
}

/// An order passes through at most one terminal stage, and ends there: on a
/// legal path only the last stage can be terminal.
pub proof fn lemma_one_terminal_state(path: Seq<OrderState>, i: int)
    requires
        legal_path(path),
        0 <= i < path.len(),
        path[i].is_terminal(),
    ensures
        i == path.len() - 1,
{
}

/// An order, tagged in its type with the stage of its lifecycle.
#[derive(Debug, PartialEq, Eq)]
pub struct Order<State> {
    pub client_order_id: ClientOrderId,
    pub exchange: Exchange,
    pub instrument: Instrument,
    /// Metadata propagated from the market event that led to the order.
    pub market_meta: MarketMeta,
    pub state: State,
}

/// An order that the portfolio has written and nobody has sent yet.
#[derive(Copy, Clone, Debug, PartialEq, Eq)]
pub struct Request {
    pub kind: OrderKind,
    pub side: Side,
    /// Price, in fixed-point quote units per whole base unit.
    pub price: u64,
    /// Fixed-point quantity; positive buys, negative sells.
    pub quantity: i64,
}

/// An order on its way to the venue.
#[derive(Copy, Clone, Debug, PartialEq, Eq)]
pub struct InFlight;

/// An order as the venue acknowledged it.
#[derive(Copy, Clone, Debug, PartialEq, Eq)]
pub struct Open {
    pub side: Side,
    /// Price, in fixed-point quote units per whole base unit.
    pub price: u64,
    /// Fixed-point quantity; positive buys, negative sells.
    pub quantity: i64,
}

/// An order that was cancelled.
#[derive(Copy, Clone, Debug, PartialEq, Eq)]
pub struct Cancelled;

/// An order of which a part has been filled.
#[derive(Copy, Clone, Debug, PartialEq, Eq)]
pub struct PartiallyFilled;

/// An order that has been filled in full.
#[derive(Copy, Clone, Debug, PartialEq, Eq)]
pub struct Filled;

/// A stage of the lifecycle as a type: the tag of an [`Order`].
pub trait Stage {
    /// The stage as a value.
    spec fn spec_state() -> OrderState;

    /// The stage as a value.
    fn state() -> (state: OrderState)
        ensures
            state == Self::spec_state(),
    ;
}

impl Stage for Request {
    open spec fn spec_state() -> OrderState {
        OrderState::Request
    }

    fn state() -> OrderState {
        OrderState::Request
    }
}

impl Stage for InFlight {
    open spec fn spec_state() -> OrderState {
        OrderState::InFlight
    }

    fn state() -> OrderState {
        OrderState::InFlight
    }
}

impl Stage for Open {
    open spec fn spec_state() -> OrderState {
        OrderState::Open
    }

    fn state() -> OrderState {
        OrderState::Open
    }
}

impl Stage for PartiallyFilled {
    open spec fn spec_state() -> OrderState {
        OrderState::PartiallyFilled
    }

    fn state() -> OrderState {
        OrderState::PartiallyFilled
    }
}

impl Stage for Cancelled {
    open spec fn spec_state() -> OrderState {
        OrderState::Cancelled
    }

    fn state() -> OrderState {
        OrderState::Cancelled
    }
}

impl Stage for Filled {
    open spec fn spec_state() -> OrderState {
        OrderState::Filled
    }

    fn state() -> OrderState {
        OrderState::Filled
    }
}

impl<State: Copy> Clone for Order<State> {
    fn clone(&self) -> (order: Self)
        ensures
            order == *self,
    {
        Order {
            client_order_id: self.client_order_id,
            exchange: self.exchange,
            instrument: self.instrument,
            market_meta: self.market_meta,
            state: self.state,
        }
    }
}

impl<State: Copy> Copy for Order<State> {

}

impl<State: Stage> Order<State> {
    /// Whether `other` is the same order, whatever stage either is in.
    pub open spec fn same_order<Other>(&self, other: Order<Other>) -> bool {
        &&& self.client_order_id == other.client_order_id
        &&& self.exchange == other.exchange
        &&& self.instrument == other.instrument
        &&& self.market_meta == other.market_meta
    }

    /// The stage the order is in.
    pub open spec fn spec_stage(&self) -> OrderState {
        State::spec_state()
    }

    /// The stage the order is in.
    #[verifier::when_used_as_spec(spec_stage)]
    pub fn stage(&self) -> (stage: OrderState)
        ensures
            stage == self.spec_stage(),
    {
        State::state()
    }
}

impl Order<Request> {
    /// A market order for `quantity` at the observed close price: a positive
    /// quantity buys, a negative one sells.
    pub fn market(
        client_order_id: ClientOrderId,
        exchange: Exchange,
        instrument: Instrument,
        market_meta: MarketMeta,
        quantity: i64,
    ) -> (order: Self)
        ensures
            order == (Order {
                client_order_id,
                exchange,
                instrument,
                market_meta,
                state: Request {
                    kind: OrderKind::Market,
                    side: Side::of_quantity(quantity as int),
                    price: market_meta.close,
                    quantity,
                },
            }),
    {
        Order {
            client_order_id,
            exchange,
            instrument,
            market_meta,
            state: Request {
                kind: OrderKind::Market,
                side: Side::from_quantity(quantity),
                price: market_meta.close,
                quantity,
            },
        }
    }

    /// The order is handed to the venue.
    pub fn submit(self) -> (order: Order<InFlight>)
        ensures
            order.same_order(self),
            self.stage().can_become(order.stage()),
    {
        Order {
            client_order_id: self.client_order_id,
            exchange: self.exchange,
            instrument: self.instrument,
            market_meta: self.market_meta,
            state: InFlight,
        }
    }
}

impl Order<InFlight> {
    /// The venue acknowledges the order with the terms in `open`.
    pub fn acknowledge(self, open: Open) -> (order: Order<Open>)
        ensures
            order.same_order(self),
            order.state == open,
            self.stage().can_become(order.stage()),
    {
        Order {
            client_order_id: self.client_order_id,
            exchange: self.exchange,
            instrument: self.instrument,
            market_meta: self.market_meta,
            state: open,
        }
    }
}

impl Order<Open> {
    /// The venue honours a request to cancel.
    pub fn cancel(self) -> (order: Order<Cancelled>)
        ensures
            order.same_order(self),
            self.stage().can_become(order.stage()),
    {
        Order {
            client_order_id: self.client_order_id,
            exchange: self.exchange,
            instrument: self.instrument,
            market_meta: self.market_meta,
            state: Cancelled,
        }
    }

    /// A part of the order is filled.
    pub fn partially_fill(self) -> (order: Order<PartiallyFilled>)
        ensures
            order.same_order(self),
            self.stage().can_become(order.stage()),
    {
        Order {
            client_order_id: self.client_order_id,
            exchange: self.exchange,
            instrument: self.instrument,
            market_meta: self.market_meta,
            state: PartiallyFilled,
        }
    }

    /// The order is filled in full.
    pub fn fill(self) -> (order: Order<Filled>)
        ensures
            order.same_order(self),
            self.stage().can_become(order.stage()),
    {
        Order {
            client_order_id: self.client_order_id,
            exchange: self.exchange,
            instrument: self.instrument,
            market_meta: self.market_meta,
            state: Filled,
        }
    }
}

impl Order<PartiallyFilled> {
    /// The venue honours a request to cancel what is left.
    pub fn cancel(self) -> (order: Order<Cancelled>)
        ensures
            order.same_order(self),
            self.stage().can_become(order.stage()),
    {
        Order {
            client_order_id: self.client_order_id,
            exchange: self.exchange,
            instrument: self.instrument,
            market_meta: self.market_meta,
            state: Cancelled,
        }
    }

    /// A further fill completes the order.
    pub fn fill(self) -> (order: Order<Filled>)
        ensures
            order.same_order(self),
            self.stage().can_become(order.stage()),
    {
        Order {
            client_order_id: self.client_order_id,
            exchange: self.exchange,
            instrument: self.instrument,
            market_meta: self.market_meta,
            state: Filled,
        }
    }
}

} // verus!
