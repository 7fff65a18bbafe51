use robson::decimal::Dec;
use robson::detected_position::{CalculatedStop, DetectedPosition, StopMethod};
use robson::value_objects::{Price, Quantity, Side, Symbol};

fn d(s: &str) -> Dec {
    Dec::parse(s).unwrap()
}

fn now_millis() -> i64 {
    chrono::Utc::now().timestamp_millis()
}

#[test]
fn test_detected_position_creation() {
    let symbol = Symbol::from_pair("BTCUSDT").unwrap();
    let entry = Price::new(d("95000")).unwrap();
    let quantity = Quantity::new(d("0.1")).unwrap();

    let position = DetectedPosition::new(
        "binance_123".to_string(),
        symbol,
        Side::Long,
        entry,
        quantity,
    );

    assert_eq!(position.binance_position_id, "binance_123");
    assert_eq!(position.side, Side::Long);
    assert_eq!(position.entry_price.as_decimal(), d("95000"));
    assert_eq!(position.quantity.as_decimal(), d("0.1"));
    assert!(position.calculated_stop.is_none());
}

#[test]
fn test_calculate_safety_stop_long() {
    let symbol = Symbol::from_pair("BTCUSDT").unwrap();
    let entry = Price::new(d("95000")).unwrap();
    let quantity = Quantity::new(d("0.1")).unwrap();

    let mut position = DetectedPosition::new(
        "binance_123".to_string(),
        symbol,
        Side::Long,
        entry,
        quantity,
    );

    let stop = position.calculate_safety_stop();

    // LONG: stop = 95000 × 0.98 = 93100
    assert_eq!(stop.stop_price.as_decimal(), d("93100"));
    assert_eq!(stop.distance, d("1900"));
    assert_eq!(stop.distance_pct, d("2"));
    assert_eq!(stop.method, StopMethod::Fixed2Percent);
    assert!(position.calculated_stop.is_some());
}

#[test]
fn test_calculate_safety_stop_short() {
    let symbol = Symbol::from_pair("BTCUSDT").unwrap();
    let entry = Price::new(d("95000")).unwrap();
    let quantity = Quantity::new(d("0.1")).unwrap();

    let mut position = DetectedPosition::new(
        "binance_123".to_string(),
        symbol,
        Side::Short,
        entry,
        quantity,
    );

    let stop = position.calculate_safety_stop();

    // SHORT: stop = 95000 × 1.02 = 96900
    assert_eq!(stop.stop_price.as_decimal(), d("96900"));
    assert_eq!(stop.distance, d("1900"));
    assert_eq!(stop.distance_pct, d("2"));
    assert_eq!(stop.method, StopMethod::Fixed2Percent);
}

#[test]
fn test_is_stop_hit_long() {
    let symbol = Symbol::from_pair("BTCUSDT").unwrap();
    let entry = Price::new(d("95000")).unwrap();
    let quantity = Quantity::new(d("0.1")).unwrap();

    let mut position = DetectedPosition::new(
        "binance_123".to_string(),
        symbol,
        Side::Long,
        entry,
        quantity,
    );

    position.calculate_safety_stop();

    // Price above stop - not hit
    assert_eq!(position.is_stop_hit(Price::new(d("93200")).unwrap()), Some(false));
    assert_eq!(position.is_stop_hit(Price::new(d("95000")).unwrap()), Some(false));

    // Price at stop - hit
    assert_eq!(position.is_stop_hit(Price::new(d("93100")).unwrap()), Some(true));

    // Price below stop - hit
    assert_eq!(position.is_stop_hit(Price::new(d("93000")).unwrap()), Some(true));
}

#[test]
fn test_is_stop_hit_short() {
    let symbol = Symbol::from_pair("BTCUSDT").unwrap();
    let entry = Price::new(d("95000")).unwrap();
    let quantity = Quantity::new(d("0.1")).unwrap();

    let mut position = DetectedPosition::new(
        "binance_123".to_string(),
        symbol,
        Side::Short,
        entry,
        quantity,
    );

    position.calculate_safety_stop();

    // Price below stop - not hit
    assert_eq!(position.is_stop_hit(Price::new(d("96800")).unwrap()), Some(false));
    assert_eq!(position.is_stop_hit(Price::new(d("95000")).unwrap()), Some(false));

    // Price at stop - hit
    assert_eq!(position.is_stop_hit(Price::new(d("96900")).unwrap()), Some(true));

    // Price above stop - hit
    assert_eq!(position.is_stop_hit(Price::new(d("97000")).unwrap()), Some(true));
}

#[test]
fn test_is_stop_hit_returns_none_when_no_stop() {
    let symbol = Symbol::from_pair("BTCUSDT").unwrap();
    let entry = Price::new(d("95000")).unwrap();
    let quantity = Quantity::new(d("0.1")).unwrap();

    let position = DetectedPosition::new(
        "binance_123".to_string(),
        symbol,
        Side::Long,
        entry,
        quantity,
    );

    // No stop calculated yet
    assert!(position.calculated_stop.is_none());
    assert_eq!(position.is_stop_hit(Price::new(d("93000")).unwrap()), None);
}

#[test]
fn test_mark_verified_updates_timestamp() {
    let symbol = Symbol::from_pair("BTCUSDT").unwrap();
    let entry = Price::new(d("95000")).unwrap();
    let quantity = Quantity::new(d("0.1")).unwrap();

    let mut position = DetectedPosition::new(
        "binance_123".to_string(),
        symbol,
        Side::Long,
        entry,
        quantity,
    );

    let first_time = position.last_verified_at;

    // Wait a tiny bit (not really testable without tokio::time::sleep)
    position.mark_verified();

    // Timestamp should be updated (equal or later)
    assert!(position.last_verified_at >= first_time);
}

#[test]
fn test_calculated_stop_is_hit_method() {
    let stop = CalculatedStop {
        stop_price: Price::new(d("93100")).unwrap(),
        distance: d("1900"),
        distance_pct: d("2"),
        method: StopMethod::Fixed2Percent,
        calculated_at: now_millis(),
    };

    // LONG: price at or below stop is hit
    assert!(stop.is_hit(Side::Long, Price::new(d("93100")).unwrap()));
    assert!(stop.is_hit(Side::Long, Price::new(d("93000")).unwrap()));
    assert!(!stop.is_hit(Side::Long, Price::new(d("93200")).unwrap()));

    // SHORT: price at or above stop is hit
    assert!(stop.is_hit(Side::Short, Price::new(d("93100")).unwrap()));
    assert!(stop.is_hit(Side::Short, Price::new(d("93200")).unwrap()));
    assert!(!stop.is_hit(Side::Short, Price::new(d("93000")).unwrap()));
}
