use robson::decimal::Dec;
use robson::market_data::{Candle, MarketDataEvent, OrderBookSnapshot, Tick};
use robson::value_objects::Symbol;

fn d(s: &str) -> Dec {
    Dec::parse(s).unwrap()
}

fn now_millis() -> i64 {
    chrono::Utc::now().timestamp_millis()
}

#[test]
fn test_tick_creation() {
    let symbol = Symbol::from_pair("BTCUSDT").unwrap();
    let tick = Tick::new(symbol, d("95000"), d("0.1"), now_millis(), "12345".to_string());

    assert_eq!(tick.price, d("95000"));
    assert_eq!(tick.quantity, d("0.1"));
}

#[test]
fn test_candle_from_tick() {
    let tick = Tick::test_tick("BTCUSDT", 95000, 100);
    let candle = Candle::from_tick(&tick);

    assert_eq!(candle.open, d("95000"));
    assert_eq!(candle.high, d("95000"));
    assert_eq!(candle.low, d("95000"));
    assert_eq!(candle.close, d("95000"));
    assert_eq!(candle.volume, d("100"));
    assert_eq!(candle.trades, 1);
}

#[test]
fn test_candle_update_with_tick() {
    let tick1 = Tick::test_tick("BTCUSDT", 95000, 100);
    let mut candle = Candle::from_tick(&tick1);

    let tick2 = Tick::test_tick("BTCUSDT", 95100, 50);
    candle.update_with_tick(&tick2);

    assert_eq!(candle.open, d("95000"));
    assert_eq!(candle.high, d("95100"));
    assert_eq!(candle.low, d("95000"));
    assert_eq!(candle.close, d("95100"));
    assert_eq!(candle.volume, d("150"));
    assert_eq!(candle.trades, 2);
}

#[test]
fn test_order_book_best_prices() {
    let symbol = Symbol::from_pair("BTCUSDT").unwrap();
    let bids = vec![(d("94999"), d("1.0")), (d("94998"), d("2.0"))];
    let asks = vec![(d("95001"), d("1.0")), (d("95002"), d("2.0"))];
    let ob = OrderBookSnapshot::new(symbol, bids, asks, now_millis());

    assert_eq!(ob.best_bid(), Some(d("94999")));
    assert_eq!(ob.best_ask(), Some(d("95001")));
    assert_eq!(ob.midpoint(), Some(d("95000")));
    assert_eq!(ob.spread(), Some(d("2")));
}

#[test]
fn test_market_data_event_symbol() {
    let tick = Tick::test_tick("ETHUSDT", 3000, 10);
    let event = MarketDataEvent::Tick(tick);

    assert_eq!(event.symbol().as_pair(), "ETHUSDT");
    assert_eq!(event.price(), Some(d("3000")));
}


#[test]
fn test_candle_midpoint_and_event_accessors() {
    let tick = Tick::test_tick("BTCUSDT", 95000, 1);
    let mut candle = Candle::from_tick(&tick);
    candle.update_with_tick(&Tick::test_tick("BTCUSDT", 94000, 1));
    assert_eq!(candle.midpoint(), Some(d("94500")));
    let event = MarketDataEvent::Candle(candle);
    assert_eq!(event.price(), Some(d("94000")));
    assert_eq!(event.symbol().as_pair(), "BTCUSDT");
}

#[test]
fn test_order_book_empty_side_has_no_midpoint() {
    let symbol = Symbol::from_pair("BTCUSDT").unwrap();
    let ob = OrderBookSnapshot::new(symbol, vec![(d("94999"), d("1"))], vec![], 7);
    assert_eq!(ob.best_ask(), None);
    assert_eq!(ob.midpoint(), None);
    assert_eq!(ob.spread(), None);
    let event = MarketDataEvent::OrderBook(ob);
    assert_eq!(event.price(), None);
    assert_eq!(event.timestamp(), 7);
}
