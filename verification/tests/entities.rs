use robson::decimal::Dec;
use robson::entities::{
    calculate_margin_required, calculate_notional_value, calculate_position_size, Order,
    OrderStatus, OrderType, Position,
};
use robson::value_objects::{OrderSide, Price, Quantity, RiskConfig, Side, Symbol, TechnicalStopDistance};

fn d(s: &str) -> Dec {
    Dec::parse(s).unwrap()
}

fn new_uuid_v7() -> u128 {
    uuid::Uuid::now_v7().as_u128()
}

fn rd(x: Dec) -> rust_decimal::Decimal {
    x.to_text().parse().unwrap()
}

#[test]
fn test_position_creation() {
    let symbol = Symbol::from_pair("BTCUSDT").unwrap();
    let position = Position::new(new_uuid_v7(), symbol, Side::Long);

    assert_eq!(position.state.name(), "armed");
    assert!(position.can_enter());
    assert!(!position.can_exit());
    assert!(!position.is_closed());
}

#[test]
fn test_order_market_creation() {
    let symbol = Symbol::from_pair("BTCUSDT").unwrap();
    let order = Order::new_market(
        new_uuid_v7(),
        symbol,
        OrderSide::Buy,
        Quantity::new(d("0.1")).unwrap(),
    );

    assert_eq!(order.order_type, OrderType::Market);
    assert_eq!(order.status, OrderStatus::Pending);
    assert!(order.price.is_none());
}

#[test]
fn test_order_stop_loss_limit_creation() {
    let symbol = Symbol::from_pair("BTCUSDT").unwrap();
    let order = Order::new_stop_loss_limit(
        new_uuid_v7(),
        symbol,
        OrderSide::Sell,
        Quantity::new(d("0.1")).unwrap(),
        Price::new(d("93500.0")).unwrap(),
        Price::new(d("93400.0")).unwrap(),
    );

    assert_eq!(order.order_type, OrderType::StopLossLimit);
    assert_eq!(order.status, OrderStatus::Pending);
    assert_eq!(order.price.unwrap().as_decimal(), d("93400.0"));
}

#[test]
fn test_order_mark_filled() {
    let symbol = Symbol::from_pair("BTCUSDT").unwrap();
    let mut order = Order::new_market(
        new_uuid_v7(),
        symbol,
        OrderSide::Buy,
        Quantity::new(d("0.1")).unwrap(),
    );

    let result = order.mark_filled(
        "123456".to_string(),
        Price::new(d("95000.0")).unwrap(),
        Quantity::new(d("0.1")).unwrap(),
        d("0.001"),
    );

    assert!(result.is_ok());
    assert!(order.is_filled());
    assert_eq!(order.fill_price.unwrap().as_decimal(), d("95000.0"));
}

// Position Sizing tests (Golden Rule)
#[test]
fn test_calculate_position_size_basic() {
    // Setup: $10,000 capital, 1% risk
    let config = RiskConfig::new(d("10000"), d("1")).unwrap();

    // Entry: $95,000, Stop: $93,500 (distance = $1,500)
    let entry = Price::new(d("95000")).unwrap();
    let stop = Price::new(d("93500")).unwrap();
    let tech_stop = TechnicalStopDistance::from_entry_and_stop(entry, stop);

    let size = calculate_position_size(&config, &tech_stop).unwrap();

    // Expected: $100 risk / $1,500 distance = 0.0666... BTC
    // Check it's approximately 0.0666...
    let expected = d("100").checked_div(d("1500")).unwrap();
    assert_eq!(size.as_decimal(), expected);
}

#[test]
fn test_calculate_position_size_wider_stop() {
    // Wider stop = smaller position
    let config = RiskConfig::new(d("10000"), d("1")).unwrap();

    // Wide stop: $3,000 distance
    let entry = Price::new(d("95000")).unwrap();
    let stop = Price::new(d("92000")).unwrap();
    let tech_stop = TechnicalStopDistance::from_entry_and_stop(entry, stop);

    let size = calculate_position_size(&config, &tech_stop).unwrap();

    // Expected: $100 / $3,000 = 0.0333... BTC
    let expected = d("100").checked_div(d("3000")).unwrap();
    assert_eq!(size.as_decimal(), expected);
}

#[test]
fn test_calculate_position_size_tighter_stop() {
    // Tighter stop = larger position
    let config = RiskConfig::new(d("10000"), d("1")).unwrap();

    // Tight stop: $500 distance (still valid, ~0.5%)
    let entry = Price::new(d("95000")).unwrap();
    let stop = Price::new(d("94500")).unwrap();
    let tech_stop = TechnicalStopDistance::from_entry_and_stop(entry, stop);

    let size = calculate_position_size(&config, &tech_stop).unwrap();

    // Expected: $100 / $500 = 0.2 BTC
    assert_eq!(size.as_decimal(), d("0.2"));
}

#[test]
fn test_calculate_position_size_higher_risk() {
    // 2% risk = double position size
    let config = RiskConfig::new(d("10000"), d("2")).unwrap();

    let entry = Price::new(d("95000")).unwrap();
    let stop = Price::new(d("93500")).unwrap();
    let tech_stop = TechnicalStopDistance::from_entry_and_stop(entry, stop);

    let size = calculate_position_size(&config, &tech_stop).unwrap();

    // Expected: $200 / $1,500 = 0.1333... BTC
    let expected = d("200").checked_div(d("1500")).unwrap();
    assert_eq!(size.as_decimal(), expected);
}

#[test]
fn test_calculate_notional_value() {
    let quantity = Quantity::new(d("0.1")).unwrap();
    let price = Price::new(d("95000")).unwrap();

    let notional = calculate_notional_value(&quantity, &price);
    assert_eq!(notional, d("9500")); // 0.1 * 95000
}

#[test]
fn test_calculate_margin_required() {
    let quantity = Quantity::new(d("0.1")).unwrap();
    let price = Price::new(d("95000")).unwrap();

    let margin = calculate_margin_required(&quantity, &price);
    // Notional = $9,500, Leverage = 10x, Margin = $950
    assert_eq!(margin, d("950"));
}

#[test]
fn test_position_sizing_risk_stays_constant() {
    // This test validates the golden rule:
    // Regardless of stop distance, the risk amount is always 1% of capital
    let config = RiskConfig::new(d("10000"), d("1")).unwrap(); // $100 risk

    // Test 1: Wide stop ($3,000)
    let entry1 = Price::new(d("95000")).unwrap();
    let stop1 = Price::new(d("92000")).unwrap();
    let tech_stop1 = TechnicalStopDistance::from_entry_and_stop(entry1, stop1);
    let size1 = calculate_position_size(&config, &tech_stop1).unwrap();
    // If stopped out: loss = 0.0333... * $3,000 = $100 ✓
    let loss1 = size1.as_decimal().checked_mul(d("3000")).unwrap();
    // Use round to handle decimal precision
    assert_eq!(rd(loss1).round_dp(2), rd(d("100")));

    // Test 2: Tight stop ($1,000)
    let entry2 = Price::new(d("95000")).unwrap();
    let stop2 = Price::new(d("94000")).unwrap();
    let tech_stop2 = TechnicalStopDistance::from_entry_and_stop(entry2, stop2);
    let size2 = calculate_position_size(&config, &tech_stop2).unwrap();
    // If stopped out: loss = 0.1 * $1,000 = $100 ✓
    let loss2 = size2.as_decimal().checked_mul(d("1000")).unwrap();
    assert_eq!(loss2, d("100"));

    // Both positions risk exactly $100 (1% of capital)
}


// A stop at the entry price gives no valid distance and is refused.
#[test]
fn test_calculate_position_size_errors_on_degenerate_distance() {
    let config = RiskConfig::new(d("10000"), d("1")).unwrap();
    let entry = Price::new(d("95000")).unwrap();
    let tech_stop = TechnicalStopDistance::from_entry_and_stop(entry, entry);
    assert!(calculate_position_size(&config, &tech_stop).is_err());
}

#[test]
fn test_order_mark_filled_twice_is_refused() {
    let symbol = Symbol::from_pair("BTCUSDT").unwrap();
    let mut order = Order::new_market(new_uuid_v7(), symbol, OrderSide::Buy, Quantity::new(d("0.1")).unwrap());
    let fill = Price::new(d("95000")).unwrap();
    let qty = Quantity::new(d("0.1")).unwrap();
    assert!(order.mark_filled("1".to_string(), fill, qty, d("0")).is_ok());
    let err = order.mark_filled("2".to_string(), fill, qty, d("0")).unwrap_err();
    assert_eq!(err.display(), "Invalid technical stop distance: Cannot mark order as filled: invalid state");
    assert_eq!(order.exchange_order_id, Some("1".to_string()));
}
