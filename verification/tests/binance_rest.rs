use robson::binance_rest::{
    build_signed_query, futures_base_url, open_positions_from, parse_futures_klines, BinanceRestError,
    FuturesPosition, KlineValue, PositionRisk,
};
use robson::decimal::Dec;
use robson::value_objects::{Price, Quantity, Side};

fn d(s: &str) -> Dec {
    Dec::parse(s).unwrap()
}

fn now_millis() -> i64 {
    chrono::Utc::now().timestamp_millis()
}

fn s(v: &str) -> KlineValue {
    KlineValue::Str(v.to_string())
}

#[test]
fn test_build_signed_query() {
    let params = vec![("symbol".to_string(), "BTCUSDT".to_string())];
    let query = build_signed_query("test_secret", params, now_millis()).unwrap();

    assert!(query.contains("timestamp="));
    assert!(query.contains("signature="));
    assert!(query.contains("symbol=BTCUSDT"));
}

#[test]
fn test_build_signed_query_sorts_params() {
    let params = vec![
        ("symbol".to_string(), "BTCUSDT".to_string()),
        ("side".to_string(), "SELL".to_string()),
    ];
    let query = build_signed_query("test_secret", params, now_millis()).unwrap();

    let side_idx = query.find("side=").unwrap();
    let symbol_idx = query.find("symbol=").unwrap();
    assert!(side_idx < symbol_idx);
}

#[test]
fn test_build_signed_query_known_signature() {
    let params = vec![
        ("symbol".to_string(), "BTCUSDT".to_string()),
        ("side".to_string(), "SELL".to_string()),
    ];
    let query = build_signed_query("test_secret", params, 1_700_000_000_000).unwrap();
    assert_eq!(
        query,
        "side=SELL&symbol=BTCUSDT&timestamp=1700000000000&signature=243721b2355cc5d7f1d985afd19dc2caa1b0e90ef4b513db71d33829e6255a4a"
    );
}

#[test]
fn test_futures_position_creation() {
    let position = FuturesPosition {
        symbol: "BTCUSDT".to_string(),
        side: Side::Long,
        quantity: Quantity::new(d("0.1")).unwrap(),
        entry_price: Price::new(d("95000")).unwrap(),
        unrealized_pnl: d("5.0"),
        leverage: 10,
    };

    assert_eq!(position.symbol, "BTCUSDT");
    assert_eq!(position.side, Side::Long);
    assert_eq!(position.quantity.as_decimal(), d("0.1"));
    assert_eq!(position.leverage, 10);
}

#[test]
fn test_parse_futures_klines() {
    let rows = vec![vec![
        KlineValue::Int(1499040000000),
        s("0.01634790"),
        s("0.80000000"),
        s("0.01575800"),
        s("0.01577100"),
        s("148976.11427815"),
        KlineValue::Int(1499644799999),
        s("2434.19055334"),
        KlineValue::Int(308),
        s("1756.87402397"),
        s("28.46694368"),
        s("17928899.62484339"),
    ]];

    let klines = parse_futures_klines(&rows).unwrap();

    assert_eq!(klines.len(), 1);
    assert_eq!(klines[0].open_time_ms, 1_499_040_000_000);
    assert_eq!(klines[0].open, d("0.01634790"));
    assert_eq!(klines[0].high, d("0.80000000"));
    assert_eq!(klines[0].low, d("0.01575800"));
    assert_eq!(klines[0].close, d("0.01577100"));
    assert_eq!(klines[0].volume, d("148976.11427815"));
    assert_eq!(klines[0].close_time_ms, 1_499_644_799_999);
    assert_eq!(klines[0].trades, 308);
}

#[test]
fn test_parse_futures_klines_reports_bad_field() {
    let rows = vec![vec![KlineValue::Int(1), s("x")]];
    match parse_futures_klines(&rows) {
        Err(BinanceRestError::ParseError(m)) => assert!(m.contains("kline")),
        other => panic!("unexpected {:?}", other),
    }
}

#[test]
fn test_position_risk_response_parsing() {
    let rows = vec![
        PositionRisk {
            symbol: "BTCUSDT".to_string(),
            position_amt: d("0.00100000"),
            entry_price: d("75000.00000000"),
            unrealized_profit: d("0.10000000"),
            leverage: "10".to_string(),
        },
        PositionRisk {
            symbol: "ETHUSDT".to_string(),
            position_amt: d("0"),
            entry_price: d("0.00000000"),
            unrealized_profit: d("0"),
            leverage: "10".to_string(),
        },
    ];
    let active = open_positions_from(&rows).unwrap();
    assert_eq!(active.len(), 1);
    assert_eq!(active[0].symbol, "BTCUSDT");
    assert_eq!(active[0].quantity.as_decimal(), d("0.001"));
    assert_eq!(active[0].side, Side::Long);
    assert_eq!(active[0].leverage, 10);
}

#[test]
fn test_short_position_and_bad_leverage() {
    let short = vec![PositionRisk {
        symbol: "BTCUSDT".to_string(),
        position_amt: d("-0.5"),
        entry_price: d("60000"),
        unrealized_profit: d("1"),
        leverage: "20".to_string(),
    }];
    let p = open_positions_from(&short).unwrap();
    assert_eq!(p[0].side, Side::Short);
    assert_eq!(p[0].quantity.as_decimal(), d("0.5"));

    let bad = vec![PositionRisk {
        symbol: "BTCUSDT".to_string(),
        position_amt: d("1"),
        entry_price: d("60000"),
        unrealized_profit: d("1"),
        leverage: "300".to_string(),
    }];
    assert!(matches!(open_positions_from(&bad), Err(BinanceRestError::ParseError(_))));
}

#[test]
fn test_futures_base_urls() {
    assert_eq!(futures_base_url(false), "https://fapi.binance.com");
    assert_eq!(futures_base_url(true), "https://testnet.binancefuture.com");
}

#[test]
fn test_ping_outcome_trims_white_space() {
    assert!(robson::binance_rest::ping_outcome("{}").is_ok());
    assert!(robson::binance_rest::ping_outcome(" \t{}\r\n").is_ok());
    assert!(robson::binance_rest::ping_outcome("\u{3000}{}\u{a0}").is_ok());
    assert!(robson::binance_rest::ping_outcome("{ }").is_err());
    assert!(robson::binance_rest::ping_outcome("").is_err());
}
