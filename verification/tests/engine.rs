use barter::data::historical::MarketFeed;
use barter::data::MarketEvent;
use barter::engine::{process_market, run_backtest, EngineError};
use barter::execution::error::ExecutionError;
use barter::execution::simulated::{Config, SimulatedExecution};
use barter::execution::{ExecutionClient, Fees, FillEvent};
use barter::fixed::SCALE;
use barter::model::{Exchange, Instrument, Side};
use barter::portfolio::allocator::Allocator;
use barter::portfolio::error::PortfolioError;
use barter::portfolio::order::{ClientOrderId, Order, OrderState, Request};
use barter::portfolio::portfolio::Portfolio;
use barter::portfolio::position::PositionUpdate;
use barter::portfolio::risk::Risk;
use barter::portfolio::{AccountEvent, Balance};
use barter::strategy::{Decision, Signal, SignalGenerator, SignalStrength, SignalStrengths};

const S: i64 = SCALE as i64;
const U: u64 = SCALE;

/// Advises to enter long and to close long on every event: the portfolio takes
/// up whichever fits the position it holds.
struct InAndOut;

impl SignalGenerator for InAndOut {
    fn generate_signal(&mut self, market: &MarketEvent) -> Option<Signal> {
        let mut signals = SignalStrengths::new();
        signals.insert(Decision::Long, SignalStrength(SCALE));
        signals.insert(Decision::CloseLong, SignalStrength(SCALE));
        Some(Signal {
            timestamp: market.timestamp,
            exchange: market.exchange,
            instrument: market.instrument,
            signals,
            market_meta: market.meta(),
        })
    }
}

/// Never advises anything.
struct Silent;

impl SignalGenerator for Silent {
    fn generate_signal(&mut self, _market: &MarketEvent) -> Option<Signal> {
        None
    }
}

/// A venue that cannot be reached.
struct Unreachable;

impl ExecutionClient for Unreachable {
    fn generate_fill(&self, _order: &Order<Request>) -> Result<FillEvent, ExecutionError> {
        Err(ExecutionError::Connectivity)
    }
}

/// A venue that fills at twice the quantity ordered.
struct Overeager;

impl ExecutionClient for Overeager {
    fn generate_fill(&self, order: &Order<Request>) -> Result<FillEvent, ExecutionError> {
        Ok(FillEvent {
            timestamp: 0,
            exchange: order.exchange,
            instrument: order.instrument,
            client_order_id: order.client_order_id,
            market_meta: order.market_meta,
            side: order.state.side,
            quantity: 2 * order.state.quantity,
            fill_value_gross: (2 * order.state.quantity.unsigned_abs() as u128
                * order.market_meta.close as u128
                / SCALE as u128) as u64,
            fees: Fees { exchange: 0, slippage: 0, network: 0 },
        })
    }
}

fn portfolio() -> Portfolio {
    Portfolio::new(
        Instrument(0),
        10_000 * U,
        Allocator { default_order_value: 1_000 * U },
        Risk { max_position_quantity: 1_000 * U },
    )
    .unwrap()
}

fn execution() -> SimulatedExecution {
    SimulatedExecution::new(&Config {
        simulated_fees_pct: Fees { exchange: U / 10, slippage: U / 20, network: 0 },
    })
}

fn market(timestamp: i64, close: u64) -> MarketEvent {
    MarketEvent { timestamp, exchange: Exchange(1), instrument: Instrument(2), close }
}

fn balance(total: u64) -> Balance {
    Balance { instrument: Instrument(0), total, free: total, used: 0 }
}

#[test]
fn tick_without_a_signal_stops_after_the_market_update() {
    let mut portfolio = portfolio();
    let tick = process_market(&market(1, 10 * U), &mut Silent, &mut portfolio, &execution());
    assert_eq!(tick.position_update, None);
    assert_eq!(tick.signal, None);
    assert_eq!(tick.order, None);
    assert_eq!(tick.fill, None);
    assert_eq!(tick.booked, None);
    assert_eq!(tick.failure(), None);
    assert_eq!(portfolio.balance(), balance(10_000 * U));
}

#[test]
fn tick_takes_a_signal_through_order_fill_and_booking() {
    let mut portfolio = portfolio();
    let tick = process_market(&market(1, 10 * U), &mut InAndOut, &mut portfolio, &execution());
    assert_eq!(tick.position_update, None);
    assert!(tick.signal.is_some());
    let order = tick.order.unwrap();
    assert_eq!(order.client_order_id, ClientOrderId(0));
    assert_eq!(order.state.quantity, 100 * S);
    let fill = tick.fill.unwrap().unwrap();
    assert_eq!(fill.fill_value_gross, 1_000 * U);
    assert_eq!(fill.fees, Fees { exchange: 100 * U, slippage: 50 * U, network: 0 });
    let events = tick.booked.unwrap().unwrap();
    assert_eq!(events.len(), 2);
    assert_eq!(events[1], AccountEvent::BalanceChanged(balance(8_850 * U)));
    assert_eq!(portfolio.balance(), balance(8_850 * U));
    assert_eq!(portfolio.position(Instrument(2)).unwrap().quantity, 100 * S);
    assert_eq!(portfolio.order(ClientOrderId(0)).unwrap().state, OrderState::Filled);
}

#[test]
fn second_tick_values_the_position_and_exits_it() {
    let mut portfolio = portfolio();
    process_market(&market(1, 10 * U), &mut InAndOut, &mut portfolio, &execution());
    let tick = process_market(&market(2, 12 * U), &mut InAndOut, &mut portfolio, &execution());
    assert_eq!(
        tick.position_update,
        Some(PositionUpdate {
            instrument: Instrument(2),
            update_time: 2,
            current_price: 12 * U,
            unrealised_pnl: 200 * S as i128,
        })
    );
    let order = tick.order.unwrap();
    assert_eq!(order.state.side, Side::Sell);
    assert_eq!(order.state.quantity, -100 * S);
    assert_eq!(tick.failure(), None);
    assert_eq!(portfolio.position(Instrument(2)), None);
    // 8850 + 1200 - 120 - 60
    assert_eq!(portfolio.balance(), balance(9_870 * U));
}

#[test]
fn backtest_replays_the_whole_feed() {
    let mut portfolio = portfolio();
    let mut feed = MarketFeed::new(vec![market(1, 10 * U), market(2, 12 * U), market(3, 12 * U)]);
    let ticks = run_backtest(&mut feed, &mut InAndOut, &mut portfolio, &execution());
    assert_eq!(ticks.len(), 3);
    assert!(ticks.iter().all(|tick| tick.failure().is_none()));
    assert_eq!(ticks[0].position_update, None);
    assert_eq!(ticks[1].position_update.unwrap().unrealised_pnl, 200 * S as i128);
    assert_eq!(ticks[2].order.unwrap().client_order_id, ClientOrderId(2));
    assert_eq!(feed.remaining_len(), 0);
    // The third event enters again: 1000 / 12 = 83.33333333 units, worth
    // 999.99999996, with fees of 99.99999999 and 49.99999999.
    let position = portfolio.position(Instrument(2)).unwrap();
    assert_eq!(position.quantity, 8_333_333_333);
    assert_eq!(position.entry_price, 12 * U);
    assert_eq!(portfolio.balance(), balance(872_000_000_006));
    assert_eq!(portfolio.order(ClientOrderId(2)).unwrap().state, OrderState::Filled);
    assert_eq!(portfolio.order(ClientOrderId(3)), None);
    // Running an exhausted feed again does nothing.
    assert!(run_backtest(&mut feed, &mut InAndOut, &mut portfolio, &execution()).is_empty());
    assert_eq!(portfolio.balance(), balance(872_000_000_006));
}

#[test]
fn backtest_of_an_empty_feed_does_nothing() {
    let mut portfolio = portfolio();
    let mut feed = MarketFeed::new(Vec::new());
    assert!(run_backtest(&mut feed, &mut InAndOut, &mut portfolio, &execution()).is_empty());
    assert_eq!(portfolio.balance(), balance(10_000 * U));
    assert_eq!(portfolio.order(ClientOrderId(0)), None);
}

#[test]
fn unreachable_venue_fails_the_tick_and_stops_the_backtest() {
    let mut portfolio = portfolio();
    let tick = process_market(&market(1, 10 * U), &mut InAndOut, &mut portfolio, &Unreachable);
    assert_eq!(tick.fill, Some(Err(ExecutionError::Connectivity)));
    assert_eq!(tick.booked, None);
    assert_eq!(tick.failure(), Some(EngineError::Execution(ExecutionError::Connectivity)));
    // The order stays on record as a request, with its reserve.
    assert_eq!(portfolio.order(ClientOrderId(0)).unwrap().state, OrderState::Request);
    assert_eq!(
        portfolio.balance(),
        Balance { instrument: Instrument(0), total: 10_000 * U, free: 9_000 * U, used: 1_000 * U }
    );

    let mut feed = MarketFeed::new(vec![market(1, 10 * U), market(2, 12 * U)]);
    let ticks = run_backtest(&mut feed, &mut InAndOut, &mut self::portfolio(), &Unreachable);
    assert_eq!(ticks.len(), 1);
    assert_eq!(ticks[0].failure(), Some(EngineError::Execution(ExecutionError::Connectivity)));
    assert_eq!(feed.remaining_len(), 1);
}

#[test]
fn refused_trade_fails_the_tick() {
    let mut portfolio = portfolio();
    let tick = process_market(&market(1, 10 * U), &mut InAndOut, &mut portfolio, &Overeager);
    assert_eq!(tick.booked, Some(Err(PortfolioError::Overfill)));
    assert_eq!(tick.failure(), Some(EngineError::Portfolio(PortfolioError::Overfill)));
    assert_eq!(portfolio.position(Instrument(2)), None);
    assert_eq!(portfolio.order(ClientOrderId(0)).unwrap().filled, 0);
}
