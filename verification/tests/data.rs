use barter::data::historical;
use barter::data::live;
use barter::data::{Feed, MarketEvent, MarketGenerator, MarketMeta};
use barter::fixed::SCALE;
use barter::model::{Exchange, Instrument};

fn event(timestamp: i64, close: u64) -> MarketEvent {
    MarketEvent { timestamp, exchange: Exchange(1), instrument: Instrument(2), close }
}

#[test]
fn market_event_hands_on_its_close_and_time() {
    let market = event(1_000, 15 * SCALE);
    assert_eq!(market.meta(), MarketMeta { close: 15 * SCALE, timestamp: 1_000 });
}

#[test]
fn historical_feed_replays_in_order_then_finishes() {
    let mut feed = historical::MarketFeed::new(vec![event(1, 10), event(2, 20), event(3, 30)]);
    assert_eq!(feed.remaining_len(), 3);
    assert_eq!(feed.generate(), Feed::Next(event(1, 10)));
    assert_eq!(feed.generate(), Feed::Next(event(2, 20)));
    assert_eq!(feed.remaining_len(), 1);
    assert_eq!(feed.generate(), Feed::Next(event(3, 30)));
    assert_eq!(feed.generate(), Feed::Finished);
    assert_eq!(feed.remaining_len(), 0);
}

#[test]
fn exhausted_historical_feed_stays_finished() {
    let mut feed = historical::MarketFeed::new(vec![event(1, 10)]);
    assert_eq!(feed.generate(), Feed::Next(event(1, 10)));
    for _ in 0..100 {
        assert_eq!(feed.generate(), Feed::Finished);
    }
}

#[test]
fn empty_historical_feed_is_finished_at_once() {
    let mut feed = historical::MarketFeed::new(Vec::new());
    assert_eq!(feed.remaining_len(), 0);
    assert_eq!(feed.generate(), Feed::Finished);
    assert_eq!(feed.generate(), Feed::Finished);
}

#[test]
fn one_receive_becomes_one_heartbeat() {
    assert_eq!(live::heartbeat(live::Received::Event(event(1, 10))), Some(Feed::Next(event(1, 10))));
    assert_eq!(live::heartbeat(live::Received::Empty), None);
    assert_eq!(live::heartbeat(live::Received::Disconnected), Some(Feed::Unhealthy));
}

#[test]
fn live_feed_yields_what_was_sent_in_order() {
    let (market_tx, market_rx) = tokio::sync::mpsc::unbounded_channel();
    let mut feed = live::MarketFeed::new(market_rx);
    market_tx.send(event(1, 10)).unwrap();
    market_tx.send(event(2, 20)).unwrap();
    assert_eq!(feed.poll(), Some(Feed::Next(event(1, 10))));
    assert_eq!(feed.poll(), Some(Feed::Next(event(2, 20))));
    assert_eq!(feed.poll(), None);
}

#[test]
fn live_feed_on_an_empty_channel_asks_to_try_again() {
    let (market_tx, market_rx) = tokio::sync::mpsc::unbounded_channel::<MarketEvent>();
    let mut feed = live::MarketFeed::new(market_rx);
    assert_eq!(feed.poll(), None);
    assert_eq!(feed.generate_within(1_000), None);
    assert_eq!(feed.generate_within(0), None);
    market_tx.send(event(5, 50)).unwrap();
    assert_eq!(feed.generate_within(0), None);
    assert_eq!(feed.generate_within(3), Some(Feed::Next(event(5, 50))));
}

#[test]
fn live_feed_turns_unhealthy_once_disconnected_and_drained() {
    let (market_tx, market_rx) = tokio::sync::mpsc::unbounded_channel();
    let mut feed = live::MarketFeed::new(market_rx);
    market_tx.send(event(1, 10)).unwrap();
    drop(market_tx);
    assert_eq!(feed.generate_within(10), Some(Feed::Next(event(1, 10))));
    assert_eq!(feed.generate_within(10), Some(Feed::Unhealthy));
    assert_eq!(feed.poll(), Some(Feed::Unhealthy));
}
