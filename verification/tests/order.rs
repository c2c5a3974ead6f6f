use barter::data::MarketMeta;
use barter::fixed::SCALE;
use barter::model::{Exchange, Instrument, Side};
use barter::portfolio::error::PortfolioError;
use barter::portfolio::order::{ClientOrderId, Open, Order, OrderKind, OrderState, Request};

const STATES: [OrderState; 6] = [
    OrderState::Request,
    OrderState::InFlight,
    OrderState::Open,
    OrderState::PartiallyFilled,
    OrderState::Cancelled,
    OrderState::Filled,
];

fn request(quantity: i64) -> Order<Request> {
    Order::market(
        ClientOrderId(7),
        Exchange(1),
        Instrument(2),
        MarketMeta { close: 10 * SCALE, timestamp: 99 },
        quantity,
    )
}

#[test]
fn only_cancelled_and_filled_are_terminal() {
    assert!(!OrderState::Request.is_terminal());
    assert!(!OrderState::InFlight.is_terminal());
    assert!(!OrderState::Open.is_terminal());
    assert!(!OrderState::PartiallyFilled.is_terminal());
    assert!(OrderState::Cancelled.is_terminal());
    assert!(OrderState::Filled.is_terminal());
}

#[test]
fn the_lifecycle_has_exactly_seven_steps() {
    let legal = [
        (OrderState::Request, OrderState::InFlight),
        (OrderState::InFlight, OrderState::Open),
        (OrderState::Open, OrderState::Cancelled),
        (OrderState::Open, OrderState::PartiallyFilled),
        (OrderState::Open, OrderState::Filled),
        (OrderState::PartiallyFilled, OrderState::Cancelled),
        (OrderState::PartiallyFilled, OrderState::Filled),
    ];
    for from in STATES {
        for to in STATES {
            let expected = if legal.contains(&(from, to)) {
                Ok(to)
            } else {
                Err(PortfolioError::IllegalTransition(from, to))
            };
            assert_eq!(from.transition(to), expected);
        }
    }
}

#[test]
fn nothing_follows_a_terminal_state() {
    for to in STATES {
        assert_eq!(
            OrderState::Filled.transition(to),
            Err(PortfolioError::IllegalTransition(OrderState::Filled, to))
        );
        assert_eq!(
            OrderState::Cancelled.transition(to),
            Err(PortfolioError::IllegalTransition(OrderState::Cancelled, to))
        );
    }
}

#[test]
fn market_order_takes_its_side_from_its_quantity() {
    let buy = request(10 * SCALE as i64);
    assert_eq!(
        buy,
        Order {
            client_order_id: ClientOrderId(7),
            exchange: Exchange(1),
            instrument: Instrument(2),
            market_meta: MarketMeta { close: 10 * SCALE, timestamp: 99 },
            state: Request {
                kind: OrderKind::Market,
                side: Side::Buy,
                price: 10 * SCALE,
                quantity: 10 * SCALE as i64,
            },
        }
    );
    let sell = request(-3);
    assert_eq!(sell.state.side, Side::Sell);
    assert_eq!(sell.state.quantity, -3);
    assert_eq!(sell.state.price, 10 * SCALE);
}

#[test]
fn order_walks_from_request_to_filled() {
    let order = request(5);
    assert_eq!(order.stage(), OrderState::Request);
    let order = order.submit();
    assert_eq!(order.stage(), OrderState::InFlight);
    let open = Open { side: Side::Buy, price: 11 * SCALE, quantity: 5 };
    let order = order.acknowledge(open);
    assert_eq!(order.stage(), OrderState::Open);
    assert_eq!(order.state, open);
    let order = order.partially_fill();
    assert_eq!(order.stage(), OrderState::PartiallyFilled);
    let order = order.fill();
    assert_eq!(order.stage(), OrderState::Filled);
    assert_eq!(order.client_order_id, ClientOrderId(7));
    assert_eq!(order.exchange, Exchange(1));
    assert_eq!(order.instrument, Instrument(2));
    assert_eq!(order.market_meta, MarketMeta { close: 10 * SCALE, timestamp: 99 });
}

#[test]
fn open_order_can_be_filled_or_cancelled() {
    let open = Open { side: Side::Sell, price: 11 * SCALE, quantity: -5 };
    let filled = request(-5).submit().acknowledge(open).fill();
    assert_eq!(filled.stage(), OrderState::Filled);
    assert_eq!(filled.client_order_id, ClientOrderId(7));
    let cancelled = request(-5).submit().acknowledge(open).cancel();
    assert_eq!(cancelled.stage(), OrderState::Cancelled);
    assert_eq!(cancelled.instrument, Instrument(2));
}

#[test]
fn partially_filled_order_can_be_cancelled() {
    let open = Open { side: Side::Buy, price: 11 * SCALE, quantity: 5 };
    let cancelled = request(5).submit().acknowledge(open).partially_fill().cancel();
    assert_eq!(cancelled.stage(), OrderState::Cancelled);
    assert_eq!(cancelled.client_order_id, ClientOrderId(7));
}

#[test]
fn order_can_be_copied() {
    let order = request(5);
    let copy = order.clone();
    assert_eq!(copy, order);
}
