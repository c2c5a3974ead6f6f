//! The trading loop: one market event at a time through strategy, portfolio
//! and execution.

use crate::data::historical::MarketFeed;
use crate::data::{Feed, MarketEvent, MarketGenerator};
use crate::execution::error::ExecutionError;
use crate::execution::{ExecutionClient, FillEvent, Trade};
use crate::portfolio::error::PortfolioError;
use crate::portfolio::order::{Order, Request};
use crate::portfolio::ledger::Ledger;
use crate::portfolio::portfolio::Portfolio;
use crate::portfolio::position::PositionUpdate;
use crate::portfolio::{AccountEvent, FillUpdater, MarketUpdater, OrderGenerator};
use crate::strategy::{Signal, SignalGenerator};
use vstd::prelude::*;

verus! {

/// What stopped the trading loop.
#[derive(Copy, Clone, Debug, PartialEq, Eq)]
pub enum EngineError {
    /// The order that was issued could not be executed.
    Execution(ExecutionError),
    /// The portfolio refused the trade that execution reported.
    Portfolio(PortfolioError),
}

/// Everything that one market event led to, step by step. A step that was not
/// reached is `None`.
pub struct Tick {
    /// What the portfolio reported of its position in the instrument observed.
    pub position_update: Option<PositionUpdate>,
    /// The advice of the strategy.
    pub signal: Option<Signal>,
    /// The order that the portfolio issued on that advice.
    pub order: Option<Order<Request>>,
    /// What execution made of the order.
    pub fill: Option<Result<FillEvent, ExecutionError>>,
    /// What the portfolio made of the fill.
    pub booked: Option<Result<Vec<AccountEvent>, PortfolioError>>,
}

impl Tick {
    /// The failure in the tick, if a step failed.
    pub open spec fn spec_failure(&self) -> Option<EngineError> {
        match (self.fill, self.booked) {
            (Some(Err(error)), _) => Some(EngineError::Execution(error)),
            (_, Some(Err(error))) => Some(EngineError::Portfolio(error)),
            _ => None,
        }
    }

    /// The failure in the tick, if a step failed.
    #[verifier::when_used_as_spec(spec_failure)]
    pub fn failure(&self) -> (failure: Option<EngineError>)
        ensures
            failure == self.spec_failure(),
    {
        match &self.fill {
            Some(Err(error)) => {
                return Some(EngineError::Execution(*error));
            },
            _ => {},
        }
        match &self.booked {
            Some(Err(error)) => Some(EngineError::Portfolio(*error)),
            _ => None,
        }
    }
}

/// Whether `tick` and the ledger `after` are what the market event `market`
/// makes of the ledger `before`: the position observed is valued; the signal,
/// if the strategy gave one, goes to the portfolio; the order, if the portfolio
/// issued one, goes to execution; the fill, if execution gave one, is booked
/// as a trade. Where a step gives nothing or fails, the ledger stays as the
/// step before left it.
pub open spec fn tick_of(before: Ledger, market: MarketEvent, tick: Tick, after: Ledger) -> bool {
    let (marked, update) = before.after_market(market);
    &&& tick.position_update == update
    &&& match tick.signal {
        None => tick.order is None && tick.fill is None && tick.booked is None && after == marked,
        Some(signal) => {
            let (ordered, order) = marked.after_signal(signal);
            &&& tick.order == order
            &&& match (order, tick.fill) {
                (None, fill) => fill is None && tick.booked is None && after == ordered,
                (Some(_), None) => false,
                (Some(_), Some(Err(_))) => tick.booked is None && after == ordered,
                (Some(_), Some(Ok(fill))) => match ordered.after_trade(fill.trade()) {
                    Ok((booked, events)) => {
                        &&& after == booked
                        &&& tick.booked matches Some(Ok(reported))
                        &&& reported@ == events
                    },
                    Err(error) => {
                        &&& after == ordered
                        &&& tick.booked matches Some(Err(refused))
                        &&& refused == error
                    },
                },
            }
        },
    }
}

/// The ledger that the market event `market` and the steps in `tick` make of
/// the ledger `before`.
pub open spec fn ledger_after_tick(before: Ledger, market: MarketEvent, tick: Tick) -> Ledger {
    let marked = before.after_market(market).0;
    match tick.signal {
        None => marked,
        Some(signal) => {
            let ordered = marked.after_signal(signal).0;
            match tick.fill {
                Some(Ok(fill)) => match ordered.after_trade(fill.trade()) {
                    Ok((booked, _)) => booked,
                    Err(_) => ordered,
                },
                _ => ordered,
            }
        },
    }
}

/// The ledger that the first market events of `events`, with the steps in
/// `ticks`, one tick for each event, make of the ledger `before`.
pub open spec fn ledger_after_ticks(
    before: Ledger,
    events: Seq<MarketEvent>,
    ticks: Seq<Tick>,
) -> Ledger
    decreases ticks.len(),
{
    if ticks.len() == 0 {
        before
    } else {
        ledger_after_tick(
            ledger_after_ticks(before, events, ticks.drop_last()),
            events[ticks.len() - 1],
            ticks.last(),
        )
    }
}

/// Whether `ticks` are what the first market events of `events` make of the
/// ledger `before`, one after the other, with no failure before the last.
pub open spec fn ticks_of(before: Ledger, events: Seq<MarketEvent>, ticks: Seq<Tick>) -> bool {
    &&& ticks.len() <= events.len()
    &&& forall|i: int|
        0 <= i < ticks.len() ==> tick_of(
            ledger_after_ticks(before, events, ticks.take(i)),
            events[i],
            #[trigger] ticks[i],
            ledger_after_ticks(before, events, ticks.take(i + 1)),
        )
    &&& forall|i: int| 0 <= i < ticks.len() - 1 ==> (#[trigger] ticks[i]).failure() is None
}

/// Takes one market event through the loop: the portfolio values its position,
/// the strategy may advise, the portfolio may order, execution fills, and the
/// portfolio books the fill.
pub fn process_market<Strategy: SignalGenerator, Execution: ExecutionClient>(
    market: &MarketEvent,
    strategy: &mut Strategy,
    portfolio: &mut Portfolio,
    execution: &Execution,
) -> (tick: Tick)
    requires
        old(portfolio).wf(),
    ensures
        final(portfolio).wf(),
        tick_of(old(portfolio)@, *market, tick, final(portfolio)@),
        final(portfolio)@ == ledger_after_tick(old(portfolio)@, *market, tick),
{
    let position_update: Option<PositionUpdate> = match portfolio.update_from_market(market) {
        Ok(update) => update,
        Err(_) => None,
    };
    let mut tick = Tick { position_update, signal: None, order: None, fill: None, booked: None };
    let signal: Signal = match strategy.generate_signal(market) {
        Some(signal) => signal,
        None => {
            return tick;
        },
    };
    tick.signal = Some(signal);
    let order: Order<Request> = match portfolio.generate_order(&signal) {
        Ok(Some(order)) => order,
        _ => {
            return tick;
        },
    };
    let fill: Result<FillEvent, ExecutionError> = execution.generate_fill(&order);
    tick.order = Some(order);
    tick.fill = Some(fill);
    match fill {
        Ok(fill) => {
            let trade: Trade = fill.trade();
            tick.booked = Some(portfolio.update_from_trade(&trade));
        },
        Err(_) => {},
    }
    tick
}

/// Replays `feed` through the loop, to its end or up to the first market event
/// on which a step fails, and returns the ticks, one for each event taken, the
/// failed one last.
pub fn run_backtest<Strategy: SignalGenerator, Execution: ExecutionClient>(
    feed: &mut MarketFeed,
    strategy: &mut Strategy,
    portfolio: &mut Portfolio,
    execution: &Execution,
) -> (ticks: Vec<Tick>)
    requires
        old(portfolio).wf(),
    ensures
        final(portfolio).wf(),
        ticks_of(old(portfolio)@, old(feed).remaining(), ticks@),
        final(portfolio)@ == ledger_after_ticks(old(portfolio)@, old(feed).remaining(), ticks@),
        final(feed).remaining() == old(feed).remaining().skip(ticks@.len() as int),
        ticks@.len() == old(feed).remaining().len() || (ticks@.len() > 0
            && ticks@.last().failure() is Some),
{
    let mut ticks: Vec<Tick> = Vec::new();
    let ghost before = portfolio@;
    let ghost events = feed.remaining();
    loop
        invariant_except_break
            forall|i: int| 0 <= i < ticks@.len() ==> (#[trigger] ticks@[i]).failure() is None,
        invariant
            portfolio.wf(),
            ticks_of(before, events, ticks@),
            portfolio@ == ledger_after_ticks(before, events, ticks@),
            feed.remaining() == events.skip(ticks@.len() as int),
        ensures
            portfolio.wf(),
            ticks_of(before, events, ticks@),
            portfolio@ == ledger_after_ticks(before, events, ticks@),
            feed.remaining() == events.skip(ticks@.len() as int),
            ticks@.len() == events.len() || (ticks@.len() > 0 && ticks@.last().failure() is Some),
        decreases feed.remaining().len(),
    {
        let ghost taken = ticks@;
        match feed.generate() {
            Feed::Next(market) => {
                let tick: Tick = process_market(&market, strategy, portfolio, execution);
                let failed: bool = tick.failure().is_some();
                ticks.push(tick);
                proof {
                    let n = taken.len() as int;
                    assert(events.skip(n).drop_first() =~= events.skip(n + 1));
                    assert(ticks@.drop_last() =~= taken);
                    assert(ticks@.take(n + 1) =~= ticks@);
                    assert forall|i: int| 0 <= i < ticks@.len() implies tick_of(
                        ledger_after_ticks(before, events, ticks@.take(i)),
                        events[i],
                        #[trigger] ticks@[i],
                        ledger_after_ticks(before, events, ticks@.take(i + 1)),
                    ) by {
                        if i < n {
                            assert(ticks@.take(i) =~= taken.take(i));
                            assert(ticks@.take(i + 1) =~= taken.take(i + 1));
                        }
                    }
                }
                if failed {
                    break ;
                }
            },
            // A replay ends when its events run out; it cannot turn unhealthy.
            Feed::Finished | Feed::Unhealthy => {
                break ;
            },
        }
    }
    ticks
}

} // verus!
