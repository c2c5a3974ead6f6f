//! The ledger as mathematics sees it: what a portfolio holds, what each
//! operation makes of it, and the laws that follow.

use crate::data::{MarketEvent, MarketMeta};
use crate::execution::{cash_flow, Trade};
use crate::fixed::{magnitude, scaled_product};
use crate::model::{Exchange, Instrument, Side};
use crate::portfolio::allocator::Allocator;
use crate::portfolio::error::PortfolioError;
use crate::portfolio::order::{legal_path, ClientOrderId, Order, OrderKind, OrderState, Request};
use crate::portfolio::position::{
    events_of_fill,
    fill_fits,
    lemma_fill_adds_quantity,
    position_after_fill,
    quantity_of,
    Position,
    PositionUpdate,
};
use crate::portfolio::risk::Risk;
use crate::portfolio::{AccountEvent, Balance};
use crate::strategy::{Decision, Signal, SignalForceExit, SignalStrength};
use vstd::prelude::*;

verus! {

/// What the ledger knows of an order it has issued.
#[derive(Copy, Clone, Debug, PartialEq, Eq)]
pub struct OrderRecord {
    pub client_order_id: ClientOrderId,
    pub exchange: Exchange,
    pub instrument: Instrument,
    /// Metadata of the market observation that led to the order.
    pub market_meta: MarketMeta,
    /// Fixed-point quantity ordered; positive buys, negative sells.
    pub quantity: i64,
    /// Part of the quantity that trades have filled so far.
    pub filled: i64,
    /// Cash set aside for what is left of the order.
    pub reserved: u64,
    pub state: OrderState,
}

impl OrderRecord {
    /// The order asks for something, no more is filled than was asked for, and
    /// an order that has ended holds no cash.
    pub open spec fn wf(&self) -> bool {
        &&& self.quantity != 0
        &&& self.quantity > i64::MIN
        &&& magnitude(self.filled as int) <= magnitude(self.quantity as int)
        &&& self.filled == 0 || (self.filled > 0) == (self.quantity > 0)
        &&& self.state.is_terminal() ==> self.reserved == 0
    }

    /// Whether the order has not ended and trades `instrument` on `side`.
    pub open spec fn works_on(&self, instrument: Instrument, side: Side) -> bool {
        &&& !self.state.is_terminal()
        &&& self.instrument == instrument
        &&& Side::of_quantity(self.quantity as int) == side
    }
}

/// Cash that `orders` hold in reserve, all together.
pub open spec fn reserved_total(orders: Seq<OrderRecord>) -> int
    decreases orders.len(),
{
    if orders.len() == 0 {
        0
    } else {
        reserved_total(orders.drop_last()) + orders.last().reserved
    }
}

/// The reserve of one order is part of the reserve of all.
pub proof fn lemma_reserved_total_bounds(orders: Seq<OrderRecord>, i: int)
    requires
        0 <= i < orders.len(),
    ensures
        0 <= orders[i].reserved <= reserved_total(orders),
    decreases orders.len(),
{
    let earlier = orders.drop_last();
    if earlier.len() == 0 {
        assert(reserved_total(earlier) == 0);
    } else if i == orders.len() - 1 {
        lemma_reserved_total_bounds(earlier, 0);
    } else {
        lemma_reserved_total_bounds(earlier, i);
    }
}

/// Replacing one order changes the reserve of all by what its reserve changed.
pub proof fn lemma_reserved_total_update(orders: Seq<OrderRecord>, i: int, record: OrderRecord)
    requires
        0 <= i < orders.len(),
    ensures
        reserved_total(orders.update(i, record)) == reserved_total(orders) - orders[i].reserved
            + record.reserved,
    decreases orders.len(),
{
    if i == orders.len() - 1 {
        assert(orders.update(i, record).drop_last() =~= orders.drop_last());
    } else {
        lemma_reserved_total_update(orders.drop_last(), i, record);
        assert(orders.update(i, record).drop_last() =~= orders.drop_last().update(i, record));
    }
}

/// A new order adds its reserve to the reserve of all.
pub proof fn lemma_reserved_total_push(orders: Seq<OrderRecord>, record: OrderRecord)
    ensures
        reserved_total(orders.push(record)) == reserved_total(orders) + record.reserved,
{
    assert(orders.push(record).drop_last() =~= orders);
}

/// The state of a portfolio, as mathematics sees it.
pub struct Ledger {
    /// The cash.
    pub balance: Balance,
    /// The open positions, each under the number of its instrument.
    pub positions: Map<u64, Position>,
    /// Every order issued so far, each at the index that is its number.
    pub orders: Seq<OrderRecord>,
    pub allocator: Allocator,
    pub risk: Risk,
}

impl Ledger {
    /// The invariant of the ledger: the cash adds up, what is used is what the
    /// orders hold in reserve, positions and orders are in order and filed
    /// under their own numbers, and the configuration can trade.
    pub open spec fn wf(&self) -> bool {
        &&& self.balance.consistent()
        &&& self.balance.used == reserved_total(self.orders)
        &&& forall|key: u64| #[trigger]
            self.positions.contains_key(key) ==> self.positions[key].wf()
                && self.positions[key].instrument == Instrument(key)
        &&& forall|i: int|
            0 <= i < self.orders.len() ==> (#[trigger] self.orders[i]).wf()
                && self.orders[i].client_order_id == ClientOrderId(i as u64)
        &&& self.orders.len() <= u64::MAX
        &&& self.allocator.default_order_value > 0
        &&& self.risk.wf()
    }

    /// The open position in `instrument`, if there is one.
    pub open spec fn position(&self, instrument: Instrument) -> Option<Position> {
        if self.positions.contains_key(instrument.0) {
            Some(self.positions[instrument.0])
        } else {
            None
        }
    }

    /// The record of the order numbered `client_order_id`, if one was issued.
    pub open spec fn order(&self, client_order_id: ClientOrderId) -> Option<OrderRecord> {
        if client_order_id.0 < self.orders.len() {
            Some(self.orders[client_order_id.0 as int])
        } else {
            None
        }
    }

    /// A ledger that holds `starting_cash` and nothing else.
    pub open spec fn opening(
        cash: Instrument,
        starting_cash: u64,
        allocator: Allocator,
        risk: Risk,
    ) -> Ledger {
        Ledger {
            balance: Balance {
                instrument: cash,
                total: starting_cash,
                free: starting_cash,
                used: 0,
            },
            positions: Map::empty(),
            orders: Seq::empty(),
            allocator,
            risk,
        }
    }

    /// The ledger after the market observation `market`, and what it reports:
    /// the position in the instrument observed, if there is one, is valued at
    /// the close price. Cash and orders stay as they are.
    pub open spec fn after_market(&self, market: MarketEvent) -> (Ledger, Option<PositionUpdate>) {
        match self.position(market.instrument) {
            Some(position) => {
                let marked = position.spec_marked(market.close);
                (
                    Ledger {
                        positions: self.positions.insert(market.instrument.0, marked),
                        ..*self
                    },
                    Some(marked.spec_update(market.timestamp)),
                )
            },
            None => (*self, None),
        }
    }
}

/// Cash that an order gives up from its reserve when a trade takes `flow`:
/// all of it when the trade completes the order, else as much as the trade
/// takes.
pub open spec fn released(reserved: u64, flow: int, complete: bool) -> int {
    if complete {
        reserved as int
    } else if flow <= 0 {
        0
    } else if flow < reserved {
        flow
    } else {
        reserved as int
    }
}

/// The stage of an order after a trade: filled when the trade completes it,
/// else partially filled.
pub open spec fn state_after_trade(complete: bool) -> OrderState {
    if complete {
        OrderState::Filled
    } else {
        OrderState::PartiallyFilled
    }
}

impl Ledger {
    /// Why the ledger refuses `trade`, if it does. The first of these that holds:
    /// no order has the number the trade names; the order has ended; the order
    /// is for another instrument; the trade has no quantity, or a side
    /// other than that of its quantity or of its order; the trade fills more
    /// than the order has left; the position it leaves cannot be written down;
    /// it takes more cash than the order's reserve and the free cash hold; the
    /// cash it brings in cannot be written down.
    pub open spec fn trade_error(&self, trade: Trade) -> Option<PortfolioError> {
        if trade.client_order_id.0 >= self.orders.len() {
            Some(PortfolioError::UnknownOrder)
        } else {
            let record = self.orders[trade.client_order_id.0 as int];
            let filled = record.filled + trade.quantity;
            let flow = cash_flow(trade);
            let freed = released(record.reserved, flow, filled == record.quantity);
            if record.state.is_terminal() {
                Some(PortfolioError::OrderClosed)
            } else if record.instrument != trade.instrument {
                Some(PortfolioError::UnknownInstrument)
            } else if trade.quantity == 0 || trade.side != Side::of_quantity(trade.quantity as int)
                || (trade.quantity > 0) != (record.quantity > 0) {
                Some(PortfolioError::TradeInvalid)
            } else if magnitude(filled) > magnitude(record.quantity as int) {
                Some(PortfolioError::Overfill)
            } else if !fill_fits(self.position(trade.instrument), trade.quantity) {
                Some(PortfolioError::Overflow)
            } else if self.balance.free + freed - flow < 0 {
                Some(PortfolioError::InsufficientFunds)
            } else if self.balance.total - flow > u64::MAX {
                Some(PortfolioError::Overflow)
            } else {
                None
            }
        }
    }

    /// The cash after `trade`, which the ledger accepts: the total falls by
    /// what the trade takes, the order gives up reserve, and what is free is
    /// the rest.
    pub open spec fn balance_after_trade(&self, trade: Trade) -> Balance {
        let record = self.orders[trade.client_order_id.0 as int];
        let flow = cash_flow(trade);
        let complete = record.filled + trade.quantity == record.quantity;
        let freed = released(record.reserved, flow, complete);
        Balance {
            instrument: self.balance.instrument,
            total: (self.balance.total - flow) as u64,
            free: (self.balance.free + freed - flow) as u64,
            used: (self.balance.used - freed) as u64,
        }
    }

    /// The record of the order after `trade`, which the ledger accepts.
    pub open spec fn order_after_trade(&self, trade: Trade) -> OrderRecord {
        let record = self.orders[trade.client_order_id.0 as int];
        let filled = record.filled + trade.quantity;
        let freed = released(record.reserved, cash_flow(trade), filled == record.quantity);
        OrderRecord {
            filled: filled as i64,
            reserved: (record.reserved - freed) as u64,
            state: state_after_trade(filled == record.quantity),
            ..record
        }
    }

    /// The positions after `trade`, which the ledger accepts.
    pub open spec fn positions_after_trade(&self, trade: Trade) -> Map<u64, Position> {
        let record = self.orders[trade.client_order_id.0 as int];
        match position_after_fill(
            self.position(trade.instrument),
            record.exchange,
            record.instrument,
            record.market_meta,
            trade.quantity,
            trade.price,
        ) {
            Some(position) => self.positions.insert(trade.instrument.0, position),
            None => self.positions.remove(trade.instrument.0),
        }
    }

    /// The events of `trade`, which the ledger accepts: those of the position,
    /// in the order in which it changed, and then the new cash.
    pub open spec fn events_of_trade(&self, trade: Trade) -> Seq<AccountEvent> {
        let record = self.orders[trade.client_order_id.0 as int];
        events_of_fill(
            self.position(trade.instrument),
            record.exchange,
            record.instrument,
            record.market_meta,
            trade.quantity,
            trade.price,
        ).push(AccountEvent::BalanceChanged(self.balance_after_trade(trade)))
    }

    /// The ledger after `trade` and the events to report, or the reason why
    /// the ledger refuses the trade and stays as it is.
    pub open spec fn after_trade(&self, trade: Trade) -> Result<
        (Ledger, Seq<AccountEvent>),
        PortfolioError,
    > {
        match self.trade_error(trade) {
            Some(error) => Err(error),
            None => Ok(
                (
                    Ledger {
                        balance: self.balance_after_trade(trade),
                        positions: self.positions_after_trade(trade),
                        orders: self.orders.update(
                            trade.client_order_id.0 as int,
                            self.order_after_trade(trade),
                        ),
                        ..*self
                    },
                    self.events_of_trade(trade),
                ),
            ),
        }
    }
}

/// The decision that the portfolio takes up from `signals`, and its strength.
/// Where a position is open only its exit counts: closing a long position,
/// or closing a short one. Where none is open an entry counts, unless the
/// signals endorse both directions.
pub open spec fn chosen_decision(
    position: Option<Position>,
    signals: Map<Decision, SignalStrength>,
) -> Option<(Decision, SignalStrength)> {
    match position {
        Some(position) => {
            let exit = if position.quantity > 0 {
                Decision::CloseLong
            } else {
                Decision::CloseShort
            };
            if signals.contains_key(exit) {
                Some((exit, signals[exit]))
            } else {
                None
            }
        },
        None => {
            if signals.contains_key(Decision::Long) && !signals.contains_key(Decision::Short) {
                Some((Decision::Long, signals[Decision::Long]))
            } else if signals.contains_key(Decision::Short) && !signals.contains_key(
                Decision::Long,
            ) {
                Some((Decision::Short, signals[Decision::Short]))
            } else {
                None
            }
        },
    }
}

impl Ledger {
    /// Whether an order that has not ended trades `instrument` on `side`.
    pub open spec fn has_working_order(&self, instrument: Instrument, side: Side) -> bool {
        exists|i: int|
            0 <= i < self.orders.len() && (#[trigger] self.orders[i]).works_on(instrument, side)
    }

    /// Cash that a new order for `quantity` at `close` sets aside: for a
    /// purchase its value, as far as free cash goes; for a sale nothing.
    pub open spec fn reserve_for(&self, quantity: i64, close: u64) -> u64 {
        if quantity > 0 {
            let notional = scaled_product(quantity as int, close as int);
            if notional < self.balance.free {
                notional as u64
            } else {
                self.balance.free
            }
        } else {
            0
        }
    }

    /// The market order that the ledger issues for `quantity`: its number is
    /// the count of the orders issued before it.
    pub open spec fn placed_order(
        &self,
        exchange: Exchange,
        instrument: Instrument,
        meta: MarketMeta,
        quantity: i64,
    ) -> Order<Request> {
        Order {
            client_order_id: ClientOrderId(self.orders.len() as u64),
            exchange,
            instrument,
            market_meta: meta,
            state: Request {
                kind: OrderKind::Market,
                side: Side::of_quantity(quantity as int),
                price: meta.close,
                quantity,
            },
        }
    }

    /// The ledger after it has issued a market order for `quantity`: the order
    /// is on record as a request, and its reserve has moved from free to used.
    pub open spec fn with_order(
        &self,
        exchange: Exchange,
        instrument: Instrument,
        meta: MarketMeta,
        quantity: i64,
    ) -> Ledger {
        let reserved = self.reserve_for(quantity, meta.close);
        Ledger {
            balance: Balance {
                instrument: self.balance.instrument,
                total: self.balance.total,
                free: (self.balance.free - reserved) as u64,
                used: (self.balance.used + reserved) as u64,
            },
            orders: self.orders.push(
                OrderRecord {
                    client_order_id: ClientOrderId(self.orders.len() as u64),
                    exchange,
                    instrument,
                    market_meta: meta,
                    quantity,
                    filled: 0,
                    reserved,
                    state: OrderState::Request,
                },
            ),
            ..*self
        }
    }

    /// The quantity that `signal` gets to order: what the allocator gives the
    /// decision taken up from it, as far as risk lets it pass. `None` where
    /// the signal is declined at any of the three steps.
    pub open spec fn approved_quantity(&self, signal: Signal) -> Option<i64> {
        let position = self.position(signal.instrument);
        match chosen_decision(position, signal.signals@) {
            None => None,
            Some((decision, strength)) => match self.allocator.allocation(
                decision,
                strength,
                signal.market_meta.close,
                position,
            ) {
                None => None,
                Some(quantity) => self.risk.evaluation(
                    decision,
                    quantity,
                    signal.market_meta.close,
                    self.balance.free,
                    self.has_working_order(signal.instrument, decision.side()),
                ),
            },
        }
    }

    /// The ledger after `signal`, and the order it issues. A signal that is
    /// declined leaves the ledger as it is.
    pub open spec fn after_signal(&self, signal: Signal) -> (Ledger, Option<Order<Request>>) {
        match self.approved_quantity(signal) {
            None => (*self, None),
            Some(quantity) => (
                self.with_order(signal.exchange, signal.instrument, signal.market_meta, quantity),
                Some(
                    self.placed_order(
                        signal.exchange,
                        signal.instrument,
                        signal.market_meta,
                        quantity,
                    ),
                ),
            ),
        }
    }

    /// The position that `signal` wants closed: the one in its instrument,
    /// where it was entered on its exchange.
    pub open spec fn position_to_exit(&self, signal: SignalForceExit) -> Option<Position> {
        match self.position(signal.instrument) {
            Some(position) => if position.exchange == signal.exchange {
                Some(position)
            } else {
                None
            },
            None => None,
        }
    }

    /// The ledger after the forced exit `signal`, and the order it issues: a
    /// market order for the whole position, negated, at the price the position
    /// was last valued at. No risk check stands in its way.
    pub open spec fn after_force_exit(&self, signal: SignalForceExit) -> (
        Ledger,
        Option<Order<Request>>,
    ) {
        match self.position_to_exit(signal) {
            None => (*self, None),
            Some(position) => {
                let meta = MarketMeta {
                    close: position.current_price,
                    timestamp: signal.timestamp,
                };
                let quantity = (-position.quantity) as i64;
                (
                    self.with_order(signal.exchange, signal.instrument, meta, quantity),
                    Some(self.placed_order(signal.exchange, signal.instrument, meta, quantity)),
                )
            },
        }
    }

    /// The ledger after the order numbered `client_order_id` was cancelled, and
    /// the events to report; or the reason why it cannot be: no order has the
    /// number, or the order has ended. The order's reserve goes back to free
    /// cash.
    pub open spec fn after_cancel(&self, client_order_id: ClientOrderId) -> Result<
        (Ledger, Seq<AccountEvent>),
        PortfolioError,
    > {
        if client_order_id.0 >= self.orders.len() {
            Err(PortfolioError::UnknownOrder)
        } else {
            let record = self.orders[client_order_id.0 as int];
            if record.state.is_terminal() {
                Err(PortfolioError::OrderClosed)
            } else {
                let balance = Balance {
                    instrument: self.balance.instrument,
                    total: self.balance.total,
                    free: (self.balance.free + record.reserved) as u64,
                    used: (self.balance.used - record.reserved) as u64,
                };
                Ok(
                    (
                        Ledger {
                            balance,
                            orders: self.orders.update(
                                client_order_id.0 as int,
                                OrderRecord {
                                    reserved: 0,
                                    state: OrderState::Cancelled,
                                    ..record
                                },
                            ),
                            ..*self
                        },
                        seq![AccountEvent::BalanceChanged(balance)],
                    ),
                )
            }
        }
    }
}

/// The ledger after `trades` were booked one after the other, or the reason
/// why the first one that the ledger refuses was refused.
pub open spec fn after_trades(ledger: Ledger, trades: Seq<Trade>) -> Result<Ledger, PortfolioError>
    decreases trades.len(),
{
    if trades.len() == 0 {
        Ok(ledger)
    } else {
        match after_trades(ledger, trades.drop_last()) {
            Err(error) => Err(error),
            Ok(before) => match before.after_trade(trades.last()) {
                Err(error) => Err(error),
                Ok((after, _)) => Ok(after),
            },
        }
    }
}

/// Sum of the signed quantities of the trades in `instrument`.
pub open spec fn net_quantity(trades: Seq<Trade>, instrument: Instrument) -> int
    decreases trades.len(),
{
    if trades.len() == 0 {
        0
    } else if trades.last().instrument == instrument {
        net_quantity(trades.drop_last(), instrument) + trades.last().quantity
    } else {
        net_quantity(trades.drop_last(), instrument)
    }
}

/// Cash that `trades` take out of the portfolio, all together.
pub open spec fn net_cash_flow(trades: Seq<Trade>) -> int
    decreases trades.len(),
{
    if trades.len() == 0 {
        0
    } else {
        net_cash_flow(trades.drop_last()) + cash_flow(trades.last())
    }
}

/// A trade that the ledger accepts leaves it in order.
pub proof fn lemma_trade_keeps_ledger_in_order(ledger: Ledger, trade: Trade)
    requires
        ledger.wf(),
        ledger.after_trade(trade) is Ok,
    ensures
        ledger.after_trade(trade)->Ok_0.0.wf(),
{
    let index = trade.client_order_id.0 as int;
    let record = ledger.orders[index];
    lemma_reserved_total_bounds(ledger.orders, index);
    lemma_reserved_total_update(ledger.orders, index, ledger.order_after_trade(trade));
    lemma_fill_adds_quantity(
        ledger.position(trade.instrument),
        record.exchange,
        record.instrument,
        record.market_meta,
        trade.quantity,
        trade.price,
    );
}

/// A trade that the ledger accepts adds its signed quantity to the position
/// in its instrument and leaves every other position alone.
pub proof fn lemma_trade_adds_quantity(ledger: Ledger, trade: Trade, instrument: Instrument)
    requires
        ledger.wf(),
        ledger.after_trade(trade) is Ok,
    ensures
        quantity_of(ledger.after_trade(trade)->Ok_0.0.position(instrument)) == quantity_of(
            ledger.position(instrument),
        ) + if instrument == trade.instrument {
            trade.quantity as int
        } else {
            0
        },
{
}

/// A trade that the ledger accepts lowers the total cash by exactly what the
/// trade takes, gross value and fees, and what is free and what is used still
/// add up to the total.
pub proof fn lemma_trade_conserves_cash(ledger: Ledger, trade: Trade)
    requires
        ledger.wf(),
        ledger.after_trade(trade) is Ok,
    ensures
        ({
            let after = ledger.after_trade(trade)->Ok_0.0;
            &&& after.balance.total == ledger.balance.total - cash_flow(trade)
            &&& after.balance.free + after.balance.used == after.balance.total
            &&& after.balance.free >= 0
        }),
{
    lemma_reserved_total_bounds(ledger.orders, trade.client_order_id.0 as int);
}

/// For every run of trades that the ledger accepts: the position in each
/// instrument ends at what it was plus the sum of the signed quantities traded
/// in it, so that a position entered from flat holds exactly that sum; the
/// total cash ends at what it was less all that the trades took; and the
/// ledger is in order, what is free and what is used adding up to the total.
pub proof fn lemma_trades_add_up(ledger: Ledger, trades: Seq<Trade>, instrument: Instrument)
    requires
        ledger.wf(),
        after_trades(ledger, trades) is Ok,
    ensures
        ({
            let after = after_trades(ledger, trades)->Ok_0;
            &&& after.wf()
            &&& quantity_of(after.position(instrument)) == quantity_of(ledger.position(instrument))
                + net_quantity(trades, instrument)
            &&& after.balance.total == ledger.balance.total - net_cash_flow(trades)
            &&& after.balance.free + after.balance.used == after.balance.total
        }),
    decreases trades.len(),
{
    if trades.len() > 0 {
        lemma_trades_add_up(ledger, trades.drop_last(), instrument);
        let before = after_trades(ledger, trades.drop_last())->Ok_0;
        lemma_trade_keeps_ledger_in_order(before, trades.last());
        lemma_trade_adds_quantity(before, trades.last(), instrument);
        lemma_trade_conserves_cash(before, trades.last());
    }
}

/// Every order has a number of its own: two orders on record differ in their
/// numbers, and the order that the ledger issues next has a number that none
/// on record has.
pub proof fn lemma_order_numbers_are_unique(
    ledger: Ledger,
    i: int,
    j: int,
    exchange: Exchange,
    instrument: Instrument,
    meta: MarketMeta,
    quantity: i64,
)
    requires
        ledger.wf(),
        0 <= i < ledger.orders.len(),
        0 <= j < ledger.orders.len(),
    ensures
        i != j ==> ledger.orders[i].client_order_id != ledger.orders[j].client_order_id,
        ledger.placed_order(exchange, instrument, meta, quantity).client_order_id
            != ledger.orders[i].client_order_id,
{
}

/// An order that has ended takes no more trades: whatever a trade that names
/// it says, the ledger refuses it with `OrderClosed`.
pub proof fn lemma_ended_order_refuses_trades(ledger: Ledger, trade: Trade)
    requires
        ledger.order(trade.client_order_id) matches Some(record) && record.state.is_terminal(),
    ensures
        ledger.after_trade(trade) == Err::<(Ledger, Seq<AccountEvent>), PortfolioError>(
            PortfolioError::OrderClosed,
        ),
{
}

/// An order that has ended is never touched again: no trade and no cancel
/// that the ledger accepts, no signal and no market observation changes its
/// record.
pub proof fn lemma_ended_orders_stay(
    ledger: Ledger,
    client_order_id: ClientOrderId,
    trade: Trade,
    cancelled: ClientOrderId,
    signal: Signal,
    exit: SignalForceExit,
    market: MarketEvent,
)
    requires
        ledger.order(client_order_id) matches Some(record) && record.state.is_terminal(),
    ensures
        ledger.after_trade(trade) matches Ok((after, _)) ==> after.order(client_order_id)
            == ledger.order(client_order_id),
        ledger.after_cancel(cancelled) matches Ok((after, _)) ==> after.order(client_order_id)
            == ledger.order(client_order_id),
        ledger.after_signal(signal).0.order(client_order_id) == ledger.order(client_order_id),
        ledger.after_force_exit(exit).0.order(client_order_id) == ledger.order(client_order_id),
        ledger.after_market(market).0.order(client_order_id) == ledger.order(client_order_id),
{
}

/// A trade that completes an order ends it, and a cancel ends an order: every
/// later trade that names the order is refused.
pub proof fn lemma_no_trade_after_the_end(ledger: Ledger, last: Trade, later: Trade)
    requires
        ledger.wf(),
        later.client_order_id == last.client_order_id,
    ensures
        ledger.after_trade(last) matches Ok((after, _)) ==> (after.order(
            last.client_order_id,
        )->Some_0.state == OrderState::Filled ==> after.after_trade(later) == Err::<
            (Ledger, Seq<AccountEvent>),
            PortfolioError,
        >(PortfolioError::OrderClosed)),
        ledger.after_cancel(last.client_order_id) matches Ok((after, _)) ==> after.after_trade(
            later,
        ) == Err::<(Ledger, Seq<AccountEvent>), PortfolioError>(PortfolioError::OrderClosed),
{
}

/// A signal that is declined, by the choice of decision, by the allocator or
/// by the veto of risk, issues no order and leaves the ledger exactly as it
/// was.
pub proof fn lemma_declined_signal_changes_nothing(ledger: Ledger, signal: Signal)
    requires
        ledger.approved_quantity(signal) is None,
    ensures
        ledger.after_signal(signal) == (ledger, None::<Order<Request>>),
{
}

/// Only trades move the total cash: issuing an order, cancelling one and
/// valuing a position leave it as it is.
pub proof fn lemma_only_trades_move_total(
    ledger: Ledger,
    cancelled: ClientOrderId,
    signal: Signal,
    exit: SignalForceExit,
    market: MarketEvent,
)
    ensures
        ledger.after_cancel(cancelled) matches Ok((after, _)) ==> after.balance.total
            == ledger.balance.total,
        ledger.after_signal(signal).0.balance.total == ledger.balance.total,
        ledger.after_force_exit(exit).0.balance.total == ledger.balance.total,
        ledger.after_market(market).0.balance == ledger.balance,
{
}

/// The stages that the ledger takes an order through when it books a trade or
/// a cancel: from where the order stands on to open, where it was not open
/// yet, and from there to `next`.
pub open spec fn booked_path(state: OrderState, next: OrderState) -> Seq<OrderState> {
    match state {
        OrderState::Request => seq![
            OrderState::Request,
            OrderState::InFlight,
            OrderState::Open,
            next,
        ],
        OrderState::InFlight => seq![OrderState::InFlight, OrderState::Open, next],
        _ => if state == next {
            seq![state]
        } else {
            seq![state, next]
        },
    }
}

/// Whatever the ledger books of an order that has not ended, a trade or a
/// cancel, takes the order along steps of the lifecycle only.
pub proof fn lemma_booked_path_is_legal(state: OrderState, next: OrderState)
    requires
        !state.is_terminal(),
        next == OrderState::PartiallyFilled || next == OrderState::Filled || next
            == OrderState::Cancelled,
    ensures
        legal_path(booked_path(state, next)),
        booked_path(state, next).first() == state,
        booked_path(state, next).last() == next,
{
}

} // verus!
