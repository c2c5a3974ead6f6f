use barter::data::MarketMeta;
use barter::fixed::SCALE;
use barter::model::{Exchange, Instrument};
use barter::portfolio::error::PortfolioError;
use barter::portfolio::position::{apply_fill, Position, PositionExit, PositionUpdate};
use barter::portfolio::AccountEvent;

const S: i64 = SCALE as i64;
const U: u64 = SCALE;

fn meta() -> MarketMeta {
    MarketMeta { close: 10 * U, timestamp: 42 }
}

fn held(quantity: i64, entry_price: u64) -> Position {
    Position::opened(Exchange(1), Instrument(2), meta(), quantity, entry_price)
}

fn fill(current: Option<Position>, quantity: i64, price: u64) -> Result<(Option<Position>, Vec<AccountEvent>), PortfolioError> {
    apply_fill(current, Exchange(1), Instrument(2), meta(), quantity, price)
}

#[test]
fn opened_position_has_no_profit_yet() {
    assert_eq!(
        held(100 * S, 10 * U),
        Position {
            exchange: Exchange(1),
            instrument: Instrument(2),
            meta: meta(),
            quantity: 100 * S,
            entry_price: 10 * U,
            current_price: 10 * U,
            unrealised_pnl: 0,
        }
    );
}

#[test]
fn long_position_gains_as_the_price_rises() {
    let position = held(100 * S, 10 * U);
    assert_eq!(position.profit_at(12 * U), 200 * S as i128);
    assert_eq!(position.profit_at(8 * U), -200 * S as i128);
    assert_eq!(position.profit_at(10 * U), 0);
    let marked = position.marked(12 * U);
    assert_eq!(marked.current_price, 12 * U);
    assert_eq!(marked.unrealised_pnl, 200 * S as i128);
    assert_eq!(marked.entry_price, 10 * U);
    assert_eq!(marked.quantity, 100 * S);
}

#[test]
fn short_position_gains_as_the_price_falls() {
    let position = held(-100 * S, 10 * U);
    assert_eq!(position.profit_at(8 * U), 200 * S as i128);
    assert_eq!(position.profit_at(12 * U), -200 * S as i128);
}

#[test]
fn update_reports_price_and_profit() {
    let marked = held(100 * S, 10 * U).marked(12 * U);
    assert_eq!(
        marked.update(77),
        PositionUpdate {
            instrument: Instrument(2),
            update_time: 77,
            current_price: 12 * U,
            unrealised_pnl: 200 * S as i128,
        }
    );
}

#[test]
fn fill_on_a_flat_instrument_opens_a_position() {
    let (after, events) = fill(None, 100 * S, 10 * U).unwrap();
    assert_eq!(after, Some(held(100 * S, 10 * U)));
    assert_eq!(events, vec![AccountEvent::PositionOpened(held(100 * S, 10 * U))]);
}

#[test]
fn fill_in_the_same_direction_averages_the_entry_price() {
    let (after, events) = fill(Some(held(100 * S, 10 * U)), 100 * S, 20 * U).unwrap();
    let expected = Position {
        exchange: Exchange(1),
        instrument: Instrument(2),
        meta: meta(),
        quantity: 200 * S,
        entry_price: 15 * U,
        current_price: 20 * U,
        unrealised_pnl: 1_000 * S as i128,
    };
    assert_eq!(after, Some(expected));
    assert_eq!(events, vec![AccountEvent::PositionChanged(expected)]);
}

#[test]
fn average_entry_price_rounds_down() {
    // One unit at 1, two units at 2: the average is 1.66666666...
    let (after, _) = fill(Some(held(S, U)), 2 * S, 2 * U).unwrap();
    assert_eq!(after.unwrap().entry_price, 166_666_666);
}

#[test]
fn short_fill_joins_a_short_position() {
    let (after, _) = fill(Some(held(-40 * S, 10 * U)), -60 * S, 11 * U).unwrap();
    let after = after.unwrap();
    assert_eq!(after.quantity, -100 * S);
    assert_eq!(after.entry_price, 1_060_000_000);
    assert_eq!(after.current_price, 11 * U);
    // Short 100 at 10.6, valued at 11: a loss of 40.
    assert_eq!(after.unrealised_pnl, -40 * S as i128);
}

#[test]
fn smaller_fill_against_a_position_reduces_it() {
    let (after, events) = fill(Some(held(100 * S, 10 * U)), -40 * S, 12 * U).unwrap();
    let expected = Position {
        exchange: Exchange(1),
        instrument: Instrument(2),
        meta: meta(),
        quantity: 60 * S,
        entry_price: 10 * U,
        current_price: 12 * U,
        unrealised_pnl: 120 * S as i128,
    };
    assert_eq!(after, Some(expected));
    assert_eq!(events, vec![AccountEvent::PositionChanged(expected)]);
}

#[test]
fn equal_fill_against_a_position_closes_it() {
    let (after, events) = fill(Some(held(100 * S, 10 * U)), -100 * S, 12 * U).unwrap();
    assert_eq!(after, None);
    assert_eq!(
        events,
        vec![AccountEvent::PositionClosed(PositionExit {
            exchange: Exchange(1),
            instrument: Instrument(2),
            quantity: 100 * S,
            entry_price: 10 * U,
            exit_price: 12 * U,
            realised_pnl: 200 * S as i128,
        })]
    );
}

#[test]
fn larger_fill_against_a_position_closes_it_and_opens_the_rest() {
    let other = MarketMeta { close: 12 * U, timestamp: 43 };
    let (after, events) =
        apply_fill(Some(held(100 * S, 10 * U)), Exchange(5), Instrument(2), other, -150 * S, 12 * U)
            .unwrap();
    let opened = Position {
        exchange: Exchange(5),
        instrument: Instrument(2),
        meta: other,
        quantity: -50 * S,
        entry_price: 12 * U,
        current_price: 12 * U,
        unrealised_pnl: 0,
    };
    assert_eq!(after, Some(opened));
    assert_eq!(
        events,
        vec![
            AccountEvent::PositionClosed(PositionExit {
                exchange: Exchange(1),
                instrument: Instrument(2),
                quantity: 100 * S,
                entry_price: 10 * U,
                exit_price: 12 * U,
                realised_pnl: 200 * S as i128,
            }),
            AccountEvent::PositionOpened(opened),
        ]
    );
}

#[test]
fn position_quantity_is_the_sum_of_the_fills() {
    let fills: [i64; 6] = [30 * S, 50 * S, -20 * S, -100 * S, 15 * S, 25 * S];
    let mut position: Option<Position> = None;
    let mut sum: i64 = 0;
    for quantity in fills {
        let (after, _) = fill(position, quantity, 10 * U).unwrap();
        position = after;
        sum += quantity;
        assert_eq!(position.map_or(0, |held| held.quantity), sum);
    }
    assert_eq!(sum, 0);
    assert_eq!(position, None);
}

#[test]
fn position_too_large_to_write_down_is_an_overflow() {
    assert_eq!(fill(Some(held(i64::MAX, U)), 1, U), Err(PortfolioError::Overflow));
    assert_eq!(fill(Some(held(-i64::MAX, U)), -1, U), Err(PortfolioError::Overflow));
    assert_eq!(
        fill(Some(held(i64::MAX - 1, U)), 1, U).unwrap().0.unwrap().quantity,
        i64::MAX
    );
}

#[test]
fn fill_without_a_quantity_is_refused() {
    assert_eq!(fill(None, 0, U), Err(PortfolioError::TradeInvalid));
    assert_eq!(fill(Some(held(5, U)), 0, U), Err(PortfolioError::TradeInvalid));
    assert_eq!(fill(None, i64::MIN, U), Err(PortfolioError::TradeInvalid));
}
