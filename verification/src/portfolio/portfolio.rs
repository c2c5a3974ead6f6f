//! The portfolio: the ledger in memory, and the operations that keep it.

use crate::data::{MarketEvent, MarketMeta};
use crate::execution::Trade;
use crate::fixed::{abs_i64, mul_scaled};
use crate::model::{Exchange, Instrument, Side};
use crate::portfolio::allocator::Allocator;
use crate::portfolio::error::PortfolioError;
use crate::portfolio::ledger::{
    chosen_decision,
    lemma_reserved_total_bounds,
    lemma_reserved_total_push,
    lemma_reserved_total_update,
    Ledger,
    OrderRecord,
};
use crate::portfolio::order::{ClientOrderId, Order, OrderState, Request};
use crate::portfolio::position::{apply_fill, Position, PositionUpdate};
use crate::portfolio::risk::Risk;
use crate::portfolio::{
    AccountEvent,
    Balance,
    Consistent,
    FillUpdater,
    MarketUpdater,
    OrderGenerator,
};
use crate::strategy::{Decision, Signal, SignalForceExit, SignalStrength, SignalStrengths};
use std::collections::HashMap;
use vstd::prelude::*;

verus! {

/// The portfolio: a ledger of cash, positions and orders, with the allocation
/// and risk policies that turn signals into orders.
pub struct Portfolio {
    balance: Balance,
    positions: HashMap<u64, Position>,
    orders: Vec<OrderRecord>,
    allocator: Allocator,
    risk: Risk,
}

impl Portfolio {
    /// The state of the portfolio.
    pub closed spec fn view(&self) -> Ledger {
        Ledger {
            balance: self.balance,
            positions: self.positions@,
            orders: self.orders@,
            allocator: self.allocator,
            risk: self.risk,
        }
    }

    /// Whether the invariant of the ledger holds of the portfolio.
    pub open spec fn wf(&self) -> bool {
        self@.wf()
    }

    /// Whether a portfolio can be run with these policies.
    pub open spec fn config_valid(allocator: Allocator, risk: Risk) -> bool {
        allocator.default_order_value > 0 && risk.wf()
    }

    /// A portfolio that holds `starting_cash` of the currency `cash` and
    /// nothing else, or `ConfigInvalid` where the policies cannot trade: a
    /// default order value of zero, or a largest position of zero or beyond
    /// what a position can hold.
    pub fn new(cash: Instrument, starting_cash: u64, allocator: Allocator, risk: Risk) -> (built:
        Result<Portfolio, PortfolioError>)
        ensures
            match built {
                Ok(portfolio) => {
                    &&& Portfolio::config_valid(allocator, risk)
                    &&& portfolio@ == Ledger::opening(cash, starting_cash, allocator, risk)
                    &&& portfolio.wf()
                },
                Err(error) => error == PortfolioError::ConfigInvalid && !Portfolio::config_valid(
                    allocator,
                    risk,
                ),
            },
    {
        if allocator.default_order_value == 0 || risk.max_position_quantity == 0
            || risk.max_position_quantity > i64::MAX as u64 {
            return Err(PortfolioError::ConfigInvalid);
        }
        let portfolio = Portfolio {
            balance: Balance {
                instrument: cash,
                total: starting_cash,
                free: starting_cash,
                used: 0,
            },
            positions: HashMap::new(),
            orders: Vec::new(),
            allocator,
            risk,
        };
        Ok(portfolio)
    }

    /// The cash.
    pub fn balance(&self) -> (balance: Balance)
        ensures
            balance == self@.balance,
    {
        self.balance
    }

    /// The open position in `instrument`, if there is one.
    pub fn position(&self, instrument: Instrument) -> (position: Option<Position>)
        ensures
            position == self@.position(instrument),
    {
        match self.positions.get(&instrument.0) {
            Some(position) => Some(*position),
            None => None,
        }
    }

    /// The record of the order numbered `client_order_id`, if one was issued.
    pub fn order(&self, client_order_id: ClientOrderId) -> (record: Option<OrderRecord>)
        ensures
            record == self@.order(client_order_id),
    {
        if client_order_id.0 < self.orders.len() as u64 {
            Some(self.orders[client_order_id.0 as usize])
        } else {
            None
        }
    }

    /// The decision that the portfolio takes up from `signals`, given the
    /// position it holds in the instrument, and its strength.
    pub fn parse_signal_decisions(position: Option<Position>, signals: &SignalStrengths) -> (chosen:
        Option<(Decision, SignalStrength)>)
        ensures
            chosen == chosen_decision(position, signals@),
    {
        match position {
            Some(position) => {
                let exit: Decision = if position.quantity > 0 {
                    Decision::CloseLong
                } else {
                    Decision::CloseShort
                };
                match signals.get(exit) {
                    Some(strength) => Some((exit, strength)),
                    None => None,
                }
            },
            None => match (signals.get(Decision::Long), signals.get(Decision::Short)) {
                (Some(strength), None) => Some((Decision::Long, strength)),
                (None, Some(strength)) => Some((Decision::Short, strength)),
                _ => None,
            },
        }
    }

    /// Whether an order that has not ended trades `instrument` on `side`.
    pub fn has_working_order(&self, instrument: Instrument, side: Side) -> (found: bool)
        ensures
            found == self@.has_working_order(instrument, side),
    {
        let mut i: usize = 0;
        while i < self.orders.len()
            invariant
                i <= self.orders.len(),
                forall|j: int|
                    0 <= j < i ==> !(#[trigger] self.orders@[j]).works_on(instrument, side),
            decreases self.orders.len() - i,
        {
            let record: OrderRecord = self.orders[i];
            if !record.state.is_terminal() && record.instrument == instrument
                && Side::from_quantity(record.quantity) == side {
                assert(self@.orders[i as int].works_on(instrument, side));
                return true;
            }
            i = i + 1;
        }
        false
    }

    /// Issues a market order for `quantity` and files it as a request.
    fn place(
        &mut self,
        exchange: Exchange,
        instrument: Instrument,
        meta: MarketMeta,
        quantity: i64,
    ) -> (order: Order<Request>)
        requires
            old(self).wf(),
            quantity != 0,
            quantity > i64::MIN,
        ensures
            final(self).wf(),
            final(self)@ == old(self)@.with_order(exchange, instrument, meta, quantity),
            order == old(self)@.placed_order(exchange, instrument, meta, quantity),
    {
        let client_order_id = ClientOrderId(self.orders.len() as u64);
        let reserved: u64 = if quantity > 0 {
            match mul_scaled(quantity as u64, meta.close) {
                Some(notional) => if notional < self.balance.free {
                    notional
                } else {
                    self.balance.free
                },
                None => self.balance.free,
            }
        } else {
            0
        };
        let record = OrderRecord {
            client_order_id,
            exchange,
            instrument,
            market_meta: meta,
            quantity,
            filled: 0,
            reserved,
            state: OrderState::Request,
        };
        proof {
            lemma_reserved_total_push(self.orders@, record);
        }
        self.balance = Balance {
            instrument: self.balance.instrument,
            total: self.balance.total,
            free: self.balance.free - reserved,
            used: self.balance.used + reserved,
        };
        self.orders.push(record);
        proof {
            assert(self@.positions == old(self)@.positions);
            assert(self@.orders.len() == self.orders.len() <= usize::MAX);
        }
        Order::market(client_order_id, exchange, instrument, meta, quantity)
    }

    /// Books that the order numbered `client_order_id` was cancelled: it ends,
    /// and its reserve goes back to free cash. An order that is unknown or has
    /// ended is refused, and nothing changes.
    pub fn update_from_cancel(&mut self, client_order_id: ClientOrderId) -> (booked: Result<
        Vec<AccountEvent>,
        PortfolioError,
    >)
        requires
            old(self).wf(),
        ensures
            final(self).wf(),
            match old(self)@.after_cancel(client_order_id) {
                Ok((ledger, events)) => {
                    &&& booked matches Ok(reported)
                    &&& reported@ == events
                    &&& final(self)@ == ledger
                },
                Err(error) => {
                    &&& booked == Err::<Vec<AccountEvent>, PortfolioError>(error)
                    &&& final(self)@ == old(self)@
                },
            },
    {
        if client_order_id.0 >= self.orders.len() as u64 {
            return Err(PortfolioError::UnknownOrder);
        }
        let index: usize = client_order_id.0 as usize;
        let record: OrderRecord = self.orders[index];
        if record.state.is_terminal() {
            return Err(PortfolioError::OrderClosed);
        }
        let cancelled = OrderRecord {
            client_order_id: record.client_order_id,
            exchange: record.exchange,
            instrument: record.instrument,
            market_meta: record.market_meta,
            quantity: record.quantity,
            filled: record.filled,
            reserved: 0,
            state: OrderState::Cancelled,
        };
        proof {
            lemma_reserved_total_bounds(self.orders@, index as int);
            lemma_reserved_total_update(self.orders@, index as int, cancelled);
        }
        let balance = Balance {
            instrument: self.balance.instrument,
            total: self.balance.total,
            free: self.balance.free + record.reserved,
            used: self.balance.used - record.reserved,
        };
        self.balance = balance;
        self.orders.set(index, cancelled);
        let mut events: Vec<AccountEvent> = Vec::new();
        events.push(AccountEvent::BalanceChanged(balance));
        Ok(events)
    }
}

impl Consistent for Portfolio {
    open spec fn consistent(&self) -> bool {
        self.wf()
    }
}

impl MarketUpdater for Portfolio {
    /// Values the position in the instrument observed, if there is one, at the
    /// close price, and reports the new value. Never fails and never touches
    /// cash.
    fn update_from_market(&mut self, market: &MarketEvent) -> (updated: Result<
        Option<PositionUpdate>,
        PortfolioError,
    >)
        ensures
            updated == Ok::<Option<PositionUpdate>, PortfolioError>(
                old(self)@.after_market(*market).1,
            ),
            final(self)@ == old(self)@.after_market(*market).0,
    {
        match self.position(market.instrument) {
            Some(position) => {
                let marked: Position = position.marked(market.close);
                self.positions.insert(market.instrument.0, marked);
                Ok(Some(marked.update(market.timestamp)))
            },
            None => Ok(None),
        }
    }
}

impl OrderGenerator for Portfolio {
    /// Takes a decision up from `signal`, lets the allocator size it and risk
    /// judge it, and issues a market order for what is approved. A signal that
    /// is declined at any step gives `None` and changes nothing. Never fails:
    /// the policies were checked when the portfolio was made.
    fn generate_order(&mut self, signal: &Signal) -> (generated: Result<
        Option<Order<Request>>,
        PortfolioError,
    >)
        ensures
            generated == Ok::<Option<Order<Request>>, PortfolioError>(
                old(self)@.after_signal(*signal).1,
            ),
            final(self)@ == old(self)@.after_signal(*signal).0,
    {
        let position: Option<Position> = self.position(signal.instrument);
        let (decision, strength) = match Portfolio::parse_signal_decisions(
            position,
            &signal.signals,
        ) {
            Some(chosen) => chosen,
            None => {
                return Ok(None);
            },
        };
        let close: u64 = signal.market_meta.close;
        let allocated: Option<i64> = self.allocator.allocate_order(
            decision,
            strength,
            close,
            position,
        );
        let proposed: i64 = match allocated {
            Some(quantity) => quantity,
            None => {
                return Ok(None);
            },
        };
        let duplicate: bool = self.has_working_order(signal.instrument, decision.side());
        let approved: i64 = match self.risk.evaluate_order(
            decision,
            proposed,
            close,
            self.balance.free,
            duplicate,
        ) {
            Some(quantity) => quantity,
            None => {
                return Ok(None);
            },
        };
        let order = self.place(signal.exchange, signal.instrument, signal.market_meta, approved);
        Ok(Some(order))
    }

    /// Issues a market order that closes the whole position in the signal's
    /// instrument, where one is open that was entered on the signal's
    /// exchange. With nothing to exit from it gives `None` and changes
    /// nothing. Never fails.
    fn generate_exit_order(&mut self, signal: SignalForceExit) -> (generated: Result<
        Option<Order<Request>>,
        PortfolioError,
    >)
        ensures
            generated == Ok::<Option<Order<Request>>, PortfolioError>(
                old(self)@.after_force_exit(signal).1,
            ),
            final(self)@ == old(self)@.after_force_exit(signal).0,
    {
        let position: Position = match self.position(signal.instrument) {
            Some(position) => position,
            None => {
                return Ok(None);
            },
        };
        if position.exchange != signal.exchange {
            return Ok(None);
        }
        let meta = MarketMeta { close: position.current_price, timestamp: signal.timestamp };
        let order = self.place(signal.exchange, signal.instrument, meta, -position.quantity);
        Ok(Some(order))
    }
}

impl FillUpdater for Portfolio {
    /// Books `trade`: the order it answers moves on to filled or partially
    /// filled, the position in its instrument is entered, changed or closed,
    /// and cash moves by the gross value and the fees. A trade that the
    /// ledger refuses changes nothing.
    fn update_from_trade(&mut self, trade: &Trade) -> (booked: Result<
        Vec<AccountEvent>,
        PortfolioError,
    >)
        ensures
            match old(self)@.after_trade(*trade) {
                Ok((ledger, events)) => {
                    &&& booked matches Ok(reported)
                    &&& reported@ == events
                    &&& final(self)@ == ledger
                },
                Err(error) => {
                    &&& booked == Err::<Vec<AccountEvent>, PortfolioError>(error)
                    &&& final(self)@ == old(self)@
                },
            },
    {
        if trade.client_order_id.0 >= self.orders.len() as u64 {
            return Err(PortfolioError::UnknownOrder);
        }
        let index: usize = trade.client_order_id.0 as usize;
        let record: OrderRecord = self.orders[index];
        if record.state.is_terminal() {
            return Err(PortfolioError::OrderClosed);
        }
        if record.instrument != trade.instrument {
            return Err(PortfolioError::UnknownInstrument);
        }
        if trade.quantity == 0 || trade.side != Side::from_quantity(trade.quantity) || (
        trade.quantity > 0) != (record.quantity > 0) {
            return Err(PortfolioError::TradeInvalid);
        }
        let filled: i128 = record.filled as i128 + trade.quantity as i128;
        let filled_size: i128 = if filled < 0 {
            -filled
        } else {
            filled
        };
        if filled_size > abs_i64(record.quantity) as i128 {
            return Err(PortfolioError::Overfill);
        }
        let current: Option<Position> = self.position(trade.instrument);
        let (after, mut events) = match apply_fill(
            current,
            record.exchange,
            record.instrument,
            record.market_meta,
            trade.quantity,
            trade.price,
        ) {
            Ok(applied) => applied,
            Err(error) => {
                return Err(error);
            },
        };
        let flow: i128 = trade.cash_flow();
        let complete: bool = filled == record.quantity as i128;
        let freed: u64 = if complete {
            record.reserved
        } else if flow <= 0 {
            0
        } else if flow < record.reserved as i128 {
            flow as u64
        } else {
            record.reserved
        };
        let free: i128 = self.balance.free as i128 + freed as i128 - flow;
        if free < 0 {
            return Err(PortfolioError::InsufficientFunds);
        }
        let total: i128 = self.balance.total as i128 - flow;
        if total > u64::MAX as i128 {
            return Err(PortfolioError::Overflow);
        }
        proof {
            lemma_reserved_total_bounds(self.orders@, index as int);
        }
        assert(freed <= self.balance.used);
        assert(0 <= free <= total <= u64::MAX);
        let balance = Balance {
            instrument: self.balance.instrument,
            total: total as u64,
            free: free as u64,
            used: self.balance.used - freed,
        };
        let updated = OrderRecord {
            client_order_id: record.client_order_id,
            exchange: record.exchange,
            instrument: record.instrument,
            market_meta: record.market_meta,
            quantity: record.quantity,
            filled: filled as i64,
            reserved: record.reserved - freed,
            state: if complete {
                OrderState::Filled
            } else {
                OrderState::PartiallyFilled
            },
        };
        proof {
            lemma_reserved_total_update(self.orders@, index as int, updated);
        }
        self.balance = balance;
        match after {
            Some(position) => {
                self.positions.insert(trade.instrument.0, position);
            },
            None => {
                self.positions.remove(&trade.instrument.0);
            },
        }
        self.orders.set(index, updated);
        events.push(AccountEvent::BalanceChanged(balance));
        Ok(events)
    }
}

} // verus!
