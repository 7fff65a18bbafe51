use robson::eventlog::{query_bindings, BindValue};
use robson::recovery::{recovery_plan, report_of};
use robson::binance_ws::BinanceWebSocketClient;
use robson::decimal::Dec;
use robson::eventlog::{is_unique_violation, next_seq_checked, query_sql, EventLogError, QueryOptions};
use robson::entities::{Position, PositionState};
use robson::market_data::Candle;
use robson::recovery::{
    decimal_abs, financial_drift_tolerance, recalibrated_capital_base, unexplained_financial_drift,
    insurance_stop_candidate, unique_compatible_trade, gap_candles, gap_needs_replay, is_orphan_insurance_order,
    replay_prices, should_close_now, RecoveryOutcome, RecoveryReport,
};
use robson::value_objects::{Price, Quantity, Side, Symbol};

fn d(s: &str) -> Dec {
    Dec::parse(s).unwrap()
}

fn now_millis() -> i64 {
    chrono::Utc::now().timestamp_millis()
}

fn candle_at(open_time: i64, high: &str, low: &str) -> Candle {
    Candle::new(
        Symbol::from_pair("BTCUSDT").unwrap(),
        d(low),
        d(high),
        d(low),
        d(high),
        d("1"),
        1,
        open_time,
        open_time + 900_000,
    )
}

#[test]
fn test_recovery_report_text() {
    let report = RecoveryReport { positions_scanned: 3, stops_updated: 1, positions_closed: 1, positions_skipped: 0 };
    assert_eq!(report.display(), "scanned=3 updated=1 closed=1 skipped=0");
    assert_eq!(RecoveryReport::default().display(), "scanned=0 updated=0 closed=0 skipped=0");

    let mut counted = RecoveryReport { positions_scanned: 3, ..RecoveryReport::default() };
    counted.record(RecoveryOutcome::Skipped);
    counted.record(RecoveryOutcome::Closed);
    counted.record(RecoveryOutcome::KeptOpen);
    assert_eq!(counted.display(), "scanned=3 updated=1 closed=1 skipped=1");
}

#[test]
fn test_gap_needs_at_least_fifteen_minutes() {
    let anchor = 1_700_000_000_000;
    assert!(!gap_needs_replay(anchor, anchor + 14 * 60_000 + 59_999));
    assert!(gap_needs_replay(anchor, anchor + 15 * 60_000));
    assert!(!gap_needs_replay(anchor, anchor - 60 * 60_000));
}

#[test]
fn test_gap_candles_and_replay_order() {
    let candles = vec![candle_at(0, "101", "99"), candle_at(900_000, "103", "98"), candle_at(1_800_000, "104", "97")];
    let gap = gap_candles(&candles, 900_000);
    assert_eq!(gap.len(), 2);
    assert_eq!(gap[0].open_time, 900_000);

    let (fav, adv) = replay_prices(Side::Long, &gap[0]);
    assert_eq!(fav.as_decimal(), d("103"));
    assert_eq!(adv.as_decimal(), d("98"));
    let (fav, adv) = replay_prices(Side::Short, &gap[0]);
    assert_eq!(fav.as_decimal(), d("98"));
    assert_eq!(adv.as_decimal(), d("103"));
}

#[test]
fn test_should_close_now_by_side() {
    let stop = Price::new(d("95000")).unwrap();
    assert!(should_close_now(Side::Long, Price::new(d("95000")).unwrap(), stop));
    assert!(!should_close_now(Side::Long, Price::new(d("95001")).unwrap(), stop));
    assert!(should_close_now(Side::Short, Price::new(d("95001")).unwrap(), stop));
    assert!(!should_close_now(Side::Short, Price::new(d("94999")).unwrap(), stop));
}

#[test]
fn test_reconciliation_helpers() {
    assert!(is_orphan_insurance_order(true, "ins-123"));
    assert!(!is_orphan_insurance_order(false, "ins-123"));
    assert!(!is_orphan_insurance_order(true, "entry-123"));
    assert!(!is_orphan_insurance_order(true, "ins"));
    assert_eq!(financial_drift_tolerance(), d("0.01"));
    assert_eq!(decimal_abs(d("-7.5")), d("7.5"));
    assert_eq!(decimal_abs(d("2")), d("2"));
}

#[test]
fn test_query_sql_numbers_filters_in_order() {
    let all = QueryOptions::new(1);
    assert_eq!(query_sql(&all), "SELECT * FROM event_log WHERE tenant_id = $1 ORDER BY occurred_at ASC, seq ASC");

    let opts = QueryOptions::new(1).stream("position:1").seq_range(3, 9).limit(50).descending();
    assert_eq!(
        query_sql(&opts),
        "SELECT * FROM event_log WHERE tenant_id = $1 AND stream_key = $2 AND seq >= $3 AND seq < $4 ORDER BY occurred_at DESC, seq DESC LIMIT $5"
    );
    let typed = QueryOptions::new(1).event_type("entry_filled").time_range(now_millis(), now_millis()).trace(7);
    assert_eq!(
        query_sql(&typed),
        "SELECT * FROM event_log WHERE tenant_id = $1 AND event_type = $2 AND occurred_at >= $3 AND occurred_at < $4 AND trace_id = $5 ORDER BY occurred_at ASC, seq ASC"
    );
}

#[test]
fn test_next_seq_checked() {
    assert_eq!(next_seq_checked("s", 0, None), Ok(1));
    assert_eq!(next_seq_checked("s", 4, Some(4)), Ok(5));
    assert_eq!(
        next_seq_checked("s", 3, Some(4)),
        Err(EventLogError::ConcurrentModification { expected: 3, actual: 4 })
    );
    assert_eq!(next_seq_checked("s", 2, None), Err(EventLogError::StreamNotFound("s".to_string())));
    assert!(is_unique_violation(Some("23505")));
    assert!(!is_unique_violation(Some("23503")));
    assert!(!is_unique_violation(None));
}

#[test]
fn test_ws_stream_urls() {
    let client = BinanceWebSocketClient::new(false);
    assert!(!client.is_testnet());
    assert_eq!(client.ticker_url("BTCUSDT"), "wss://stream.binance.com:9443/ws/btcusdt@ticker");
    assert_eq!(client.agg_trade_url("ETHUSDT"), "wss://stream.binance.com:9443/ws/ethusdt@aggTrade");
    assert_eq!(client.kline_url("BTCUSDT", "15m"), "wss://stream.binance.com:9443/ws/btcusdt@kline_15m");
    let test = BinanceWebSocketClient::new(true);
    assert_eq!(test.base_url(), "wss://testnet.binance.vision");
    assert_eq!(test.user_data_url("abc"), "wss://testnet.binance.vision/ws/abc");
}

#[test]
fn test_capital_base_recalibration() {
    // Wallet 10500, month net 200, committed 100, two Armed positions at 1%
    // of 10000: carried 300, base 10000, unchanged.
    assert!(recalibrated_capital_base(d("10500"), d("200"), d("100"), d("10000"), 2).is_none());
    let rec = recalibrated_capital_base(d("11000"), d("200"), d("100"), d("10000"), 2).unwrap();
    assert_eq!(rec.new_capital_base, d("10500"));
    assert_eq!(rec.carried_risk, d("300"));
    assert_eq!(rec.previous_capital_base, d("10000"));
    assert_eq!(rec.wallet_balance, d("11000"));
    assert_eq!(rec.reason, "manual_account_change");
    let rec = recalibrated_capital_base(d("100"), d("0"), d("100"), d("10000"), 2).unwrap();
    assert_eq!(rec.new_capital_base, d("0"));
}

#[test]
fn test_unexplained_financial_drift() {
    assert!(unexplained_financial_drift(d("10000.01"), d("10000"), d("0")).is_none());
    assert!(unexplained_financial_drift(d("9999.99"), d("10000"), d("0")).is_none());
    assert_eq!(unexplained_financial_drift(d("10003.84"), d("10000"), d("0")), Some(d("3.84")));
    assert_eq!(unexplained_financial_drift(d("9900"), d("10000"), d("-50")), Some(d("-50")));
}

#[test]
fn test_user_trade_evidence_must_be_unique() {
    let floor = 1_000;
    let expected = d("0.01");
    // One trade after the floor with the expected quantity.
    let one = vec![(900, d("0.01")), (1_500, d("0.010")), (1_600, d("0.02"))];
    assert_eq!(unique_compatible_trade(&one, floor, expected), Some(1));
    // None compatible.
    let none = vec![(900, d("0.01")), (1_600, d("0.02"))];
    assert_eq!(unique_compatible_trade(&none, floor, expected), None);
    assert_eq!(unique_compatible_trade(&vec![], floor, expected), None);
    // Two compatible: ambiguous.
    let two = vec![(1_000, d("0.01")), (1_600, d("0.01"))];
    assert_eq!(unique_compatible_trade(&two, floor, expected), None);
}

#[test]
fn test_insurance_stop_candidate_prefers_active_state() {
    let mut position = Position::new(1, Symbol::from_pair("BTCUSDT").unwrap(), Side::Long);
    assert_eq!(insurance_stop_candidate(&position), None);
    position.insurance_stop_id = Some(7);
    assert_eq!(insurance_stop_candidate(&position), Some(7));
    let p = Price::new(d("95000")).unwrap();
    position.state = PositionState::Active {
        current_price: p,
        trailing_stop: p,
        favorable_extreme: p,
        extreme_at: 0,
        insurance_stop_id: Some(9),
        last_emitted_stop: None,
    };
    assert_eq!(insurance_stop_candidate(&position), Some(9));
    position.state = PositionState::Active {
        current_price: p,
        trailing_stop: p,
        favorable_extreme: p,
        extreme_at: 0,
        insurance_stop_id: None,
        last_emitted_stop: None,
    };
    assert_eq!(insurance_stop_candidate(&position), Some(7));
}

#[test]
fn test_query_bindings_follow_placeholders() {
    let opts = QueryOptions::new(1).stream("position:1").seq_range(3, 9).limit(50);
    assert_eq!(
        query_bindings(&opts),
        vec![
            BindValue::Id(1),
            BindValue::Text("position:1".to_string()),
            BindValue::Number(3),
            BindValue::Number(9),
            BindValue::Number(50),
        ]
    );
    assert_eq!(query_bindings(&QueryOptions::new(7)), vec![BindValue::Id(7)]);
}

#[test]
fn test_recovery_report_counts_every_position() {
    assert_eq!(report_of(&vec![]), RecoveryReport::default());
    let r = report_of(&vec![
        RecoveryOutcome::Closed,
        RecoveryOutcome::KeptOpen,
        RecoveryOutcome::Skipped,
        RecoveryOutcome::KeptOpen,
    ]);
    assert_eq!(r.positions_scanned, 4);
    assert_eq!(r.positions_closed, 1);
    assert_eq!(r.stops_updated, 2);
    assert_eq!(r.positions_skipped, 1);
}

#[test]
fn test_recovery_plan_skips_recent_and_inactive() {
    let mut position = Position::new(1, Symbol::from_pair("BTCUSDT").unwrap(), Side::Long);
    assert_eq!(recovery_plan(&position, 10_000_000), None);
    let p = Price::new(d("95000")).unwrap();
    let stop = Price::new(d("93500")).unwrap();
    position.updated_at = 1_000_000;
    position.state = PositionState::Active {
        current_price: p,
        trailing_stop: stop,
        favorable_extreme: p,
        extreme_at: 2_000_000,
        insurance_stop_id: None,
        last_emitted_stop: None,
    };
    // Anchor is the later of updated_at and extreme_at.
    assert_eq!(recovery_plan(&position, 2_000_000 + 14 * 60_000), None);
    assert_eq!(recovery_plan(&position, 2_000_000 + 15 * 60_000), Some((stop, 2_000_000)));
}

#[test]
fn test_committed_carried_risk() {
    let symbol = Symbol::from_pair("BTCUSDT").unwrap();
    // Active Long: (95000 - 94000) × 0.1 = 100.
    let mut long = Position::new(1, symbol.clone(), Side::Long);
    long.quantity = Quantity::new(d("0.1")).unwrap();
    long.entry_price = Some(Price::new(d("95000")).unwrap());
    long.state = PositionState::Active {
        current_price: Price::new(d("95500")).unwrap(),
        trailing_stop: Price::new(d("94000")).unwrap(),
        favorable_extreme: Price::new(d("95500")).unwrap(),
        extreme_at: 0,
        insurance_stop_id: None,
        last_emitted_stop: None,
    };
    // Active Short on a low-priced token with a quantity above 2^30:
    // (0.0011 - 0.0010) × 5000000000 = 500000.
    let mut short = Position::new(2, Symbol::from_pair("PEPEUSDT").unwrap(), Side::Short);
    short.quantity = Quantity::new(d("5000000000")).unwrap();
    short.entry_price = Some(Price::new(d("0.0010")).unwrap());
    short.state = PositionState::Active {
        current_price: Price::new(d("0.0010")).unwrap(),
        trailing_stop: Price::new(d("0.0011")).unwrap(),
        favorable_extreme: Price::new(d("0.0010")).unwrap(),
        extreme_at: 0,
        insurance_stop_id: None,
        last_emitted_stop: None,
    };
    // A stop past the entry carries no risk; an Armed position none either.
    let mut locked = Position::new(3, symbol.clone(), Side::Long);
    locked.quantity = Quantity::new(d("1")).unwrap();
    locked.entry_price = Some(Price::new(d("90000")).unwrap());
    locked.state = PositionState::Active {
        current_price: Price::new(d("96000")).unwrap(),
        trailing_stop: Price::new(d("95000")).unwrap(),
        favorable_extreme: Price::new(d("96000")).unwrap(),
        extreme_at: 0,
        insurance_stop_id: None,
        last_emitted_stop: None,
    };
    let armed = Position::new(4, symbol, Side::Long);
    let total = robson::recovery::calculate_committed_carried_risk(&vec![long, short, locked, armed]);
    assert_eq!(total, d("500100"));
    assert_eq!(robson::recovery::calculate_committed_carried_risk(&vec![]), d("0"));
}
