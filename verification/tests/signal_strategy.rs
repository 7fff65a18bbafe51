use robson::decimal::Dec;
use robson::market_data::Candle;
use robson::policy::{EntryPolicy, StrategyId};
use robson::signal_strategy::{
    detect_sma_crossover_from_prices, KeyLevelKind, KeyLevelStrategy, ReversalPattern,
    ReversalPatternStrategy, SignalContext, SignalDecision, SignalReason, SmaCrossoverStrategy,
    SignalStrategy, StrategyRegistry,
};
use robson::value_objects::{Side, Symbol};

fn d(s: &str) -> Dec {
    Dec::parse(s).unwrap()
}

fn new_uuid_v7() -> u128 {
    uuid::Uuid::now_v7().as_u128()
}

fn now_millis() -> i64 {
    chrono::Utc::now().timestamp_millis()
}

fn candle(
    index: i64,
    open: Dec,
    high: Dec,
    low: Dec,
    close: Dec,
) -> Candle {
    let symbol = Symbol::from_pair("BTCUSDT").unwrap();
    let open_time = now_millis() + index * 15 * 60_000;
    Candle::new(
        symbol,
        open,
        high,
        low,
        close,
        d("100"),
        10,
        open_time,
        open_time + 15 * 60_000,
    )
}

fn ctx(side: Side, candles: Vec<Candle>) -> SignalContext {
    SignalContext {
        position_id: new_uuid_v7(),
        symbol: Symbol::from_pair("BTCUSDT").unwrap(),
        side,
        candles,
        evaluated_at: now_millis(),
    }
}

#[test]
fn sma_crossover_confirms_long_once() {
    let prices = vec![d("100"), d("99"), d("98"), d("97"), d("96"), d("105")];
    assert!(detect_sma_crossover_from_prices(&prices, Side::Long, 2, 5));
    assert!(!detect_sma_crossover_from_prices(&prices, Side::Short, 2, 5));
}

#[test]
fn sma_strategy_uses_last_closed_candle_price() {
    let candles = vec![
        candle(0, d("100"), d("100"), d("100"), d("100")),
        candle(1, d("99"), d("99"), d("99"), d("99")),
        candle(2, d("98"), d("98"), d("98"), d("98")),
        candle(3, d("97"), d("97"), d("97"), d("97")),
        candle(4, d("96"), d("96"), d("96"), d("96")),
        candle(5, d("105"), d("105"), d("105"), d("105")),
    ];
    let strategy = SmaCrossoverStrategy::new(2, 5);
    let decision = strategy.evaluate(ctx(Side::Long, candles));

    assert!(matches!(
        decision,
        SignalDecision::SignalConfirmed {
            side: Side::Long,
            reference_price,
            ..
        } if reference_price == d("105")
    ));
}

#[test]
fn reversal_strategy_confirms_hammer_after_down_move_at_local_low() {
    let candles = vec![
        candle(0, d("110"), d("111"), d("109"), d("109")),
        candle(1, d("109"), d("110"), d("107"), d("107")),
        candle(2, d("107"), d("108"), d("105"), d("105")),
        candle(3, d("103"), d("104"), d("95"), d("102")),
    ];
    let strategy = ReversalPatternStrategy::new(3, 4);
    let decision = strategy.evaluate(ctx(Side::Long, candles));

    assert!(matches!(
        decision,
        SignalDecision::SignalConfirmed {
            reason: SignalReason::ReversalPattern { pattern: ReversalPattern::Hammer },
            ..
        }
    ));
}

#[test]
fn reversal_strategy_rejects_hammer_without_prior_down_move() {
    let candles = vec![
        candle(0, d("100"), d("101"), d("99"), d("101")),
        candle(1, d("101"), d("102"), d("100"), d("102")),
        candle(2, d("102"), d("103"), d("101"), d("103")),
        candle(3, d("103"), d("104"), d("95"), d("102")),
    ];
    let strategy = ReversalPatternStrategy::new(3, 4);
    assert_eq!(strategy.evaluate(ctx(Side::Long, candles)), SignalDecision::NoSignal);
}

#[test]
fn reversal_strategy_confirms_bearish_engulfing_after_up_move_at_local_high() {
    let candles = vec![
        candle(0, d("100"), d("101"), d("99"), d("101")),
        candle(1, d("101"), d("103"), d("100"), d("103")),
        candle(2, d("103"), d("105"), d("102"), d("105")),
        candle(3, d("105"), d("108"), d("104"), d("107")),
        candle(4, d("108"), d("109"), d("100"), d("104")),
    ];
    let strategy = ReversalPatternStrategy::new(3, 5);
    let decision = strategy.evaluate(ctx(Side::Short, candles));

    assert!(matches!(
        decision,
        SignalDecision::SignalConfirmed {
            reason: SignalReason::ReversalPattern {
                pattern: ReversalPattern::BearishEngulfing
            },
            ..
        }
    ));
}

#[test]
fn key_level_strategy_confirms_support_reaction() {
    let candles = vec![
        candle(0, d("110"), d("112"), d("108"), d("111")),
        candle(1, d("111"), d("113"), d("109"), d("112")),
        candle(2, d("112"), d("114"), d("100"), d("110")),
        candle(3, d("110"), d("113"), d("108"), d("112")),
        candle(4, d("112"), d("115"), d("109"), d("114")),
        candle(5, d("114"), d("116"), d("101"), d("113")),
        candle(6, d("113"), d("115"), d("100.3"), d("112")),
        candle(7, d("101"), d("108"), d("99.8"), d("107")),
    ];
    let strategy = KeyLevelStrategy::new(6, 2, d("0.005"));
    let decision = strategy.evaluate(ctx(Side::Long, candles));

    assert!(matches!(
        decision,
        SignalDecision::SignalConfirmed {
            reason: SignalReason::KeyLevelReaction {
                level_kind: KeyLevelKind::Support,
                level_price
            },
            ..
        } if level_price == d("100")
    ));
}

#[test]
fn key_level_strategy_rejects_without_reaction_confirmation() {
    let candles = vec![
        candle(0, d("110"), d("112"), d("108"), d("111")),
        candle(1, d("111"), d("113"), d("109"), d("112")),
        candle(2, d("112"), d("114"), d("100"), d("110")),
        candle(3, d("110"), d("113"), d("108"), d("112")),
        candle(4, d("112"), d("115"), d("109"), d("114")),
        candle(5, d("114"), d("116"), d("101"), d("113")),
        candle(6, d("113"), d("115"), d("100.3"), d("112")),
        candle(7, d("107"), d("108"), d("99.8"), d("100.5")),
    ];
    let strategy = KeyLevelStrategy::new(6, 2, d("0.005"));
    assert_eq!(strategy.evaluate(ctx(Side::Long, candles)), SignalDecision::NoSignal);
}

#[test]
fn registry_maps_policies_to_v1_strategies() {
    let registry = StrategyRegistry::new();
    let trend_id = StrategyRegistry::strategy_id_for_policy(EntryPolicy::ConfirmedTrend)
        .expect("confirmed trend must resolve");
    let reversal_id = StrategyRegistry::strategy_id_for_policy(EntryPolicy::ConfirmedReversal)
        .expect("confirmed reversal must resolve");
    let key_level_id = StrategyRegistry::strategy_id_for_policy(EntryPolicy::ConfirmedKeyLevel)
        .expect("confirmed key level must resolve");

    assert_eq!(trend_id, StrategyId::new("sma_crossover", 1));
    assert_eq!(reversal_id, StrategyId::new("reversal_patterns", 1));
    assert_eq!(key_level_id, StrategyId::new("key_level", 1));
    assert!(StrategyRegistry::strategy_id_for_policy(EntryPolicy::Immediate).is_none());
    assert!(registry.get(&trend_id).is_some());
    assert!(registry.get(&reversal_id).is_some());
    assert!(registry.get(&key_level_id).is_some());
}

#[test]
fn strategy_determinism_same_candles_same_decision() {
    // Each strategy must produce identical SignalDecisions when given the
    // same candles, evaluated 100 times.
    let registry = StrategyRegistry::new();

    // SMA crossover candles (long confirmation).
    let sma_candles = vec![
        candle(0, d("100"), d("100"), d("100"), d("100")),
        candle(1, d("99"), d("99"), d("99"), d("99")),
        candle(2, d("98"), d("98"), d("98"), d("98")),
        candle(3, d("97"), d("97"), d("97"), d("97")),
        candle(4, d("96"), d("96"), d("96"), d("96")),
        candle(5, d("105"), d("105"), d("105"), d("105")),
    ];
    let sma_ctx = ctx(Side::Long, sma_candles.clone());
    let sma_id = StrategyId::new("sma_crossover", 1);
    let sma_strategy = registry.get(&sma_id).expect("sma strategy registered");
    let first = sma_strategy.evaluate(sma_ctx.clone());
    for _ in 0..100 {
        assert_eq!(sma_strategy.evaluate(sma_ctx.clone()), first, "SMA strategy not deterministic");
    }

    // Reversal pattern candles (long hammer).
    let reversal_candles = vec![
        candle(0, d("110"), d("111"), d("109"), d("109")),
        candle(1, d("109"), d("110"), d("107"), d("107")),
        candle(2, d("107"), d("108"), d("105"), d("105")),
        candle(3, d("103"), d("104"), d("95"), d("102")),
    ];
    let rev_ctx = ctx(Side::Long, reversal_candles.clone());
    let rev_id = StrategyId::new("reversal_patterns", 1);
    let rev_strategy = registry.get(&rev_id).expect("reversal strategy registered");
    let first = rev_strategy.evaluate(rev_ctx.clone());
    for _ in 0..100 {
        assert_eq!(rev_strategy.evaluate(rev_ctx.clone()), first, "Reversal strategy not deterministic");
    }

    // Key level candles (support reaction).
    let kl_candles = vec![
        candle(0, d("110"), d("112"), d("108"), d("111")),
        candle(1, d("111"), d("113"), d("109"), d("112")),
        candle(2, d("112"), d("114"), d("100"), d("110")),
        candle(3, d("110"), d("113"), d("108"), d("112")),
        candle(4, d("112"), d("115"), d("109"), d("114")),
        candle(5, d("114"), d("116"), d("101"), d("113")),
        candle(6, d("113"), d("115"), d("100.3"), d("112")),
        candle(7, d("101"), d("108"), d("99.8"), d("107")),
    ];
    let kl_ctx = ctx(Side::Long, kl_candles.clone());
    let kl_id = StrategyId::new("key_level", 1);
    let kl_strategy = registry.get(&kl_id).expect("key level strategy registered");
    let first = kl_strategy.evaluate(kl_ctx.clone());
    for _ in 0..100 {
        assert_eq!(kl_strategy.evaluate(kl_ctx.clone()), first, "Key level strategy not deterministic");
    }
}


#[test]
fn signal_reasons_render_as_text() {
    assert_eq!(ReversalPattern::Hammer.display(), "hammer");
    assert_eq!(KeyLevelKind::Support.display(), "support");
    assert_eq!(SignalReason::Immediate.display(), "immediate");
}

#[test]
fn strategies_reject_candles_of_another_symbol() {
    let mut candles = vec![
        candle(0, d("100"), d("100"), d("100"), d("100")),
        candle(1, d("99"), d("99"), d("99"), d("99")),
        candle(2, d("98"), d("98"), d("98"), d("98")),
        candle(3, d("97"), d("97"), d("97"), d("97")),
        candle(4, d("96"), d("96"), d("96"), d("96")),
        candle(5, d("105"), d("105"), d("105"), d("105")),
    ];
    candles[5].symbol = Symbol::from_pair("ETHUSDT").unwrap();
    let strategy = SmaCrossoverStrategy::new(2, 5);
    assert_eq!(strategy.evaluate(ctx(Side::Long, candles)), SignalDecision::NoSignal);
}

fn decide_with<S: SignalStrategy>(strategy: &S, context: SignalContext) -> SignalDecision {
    SignalStrategy::evaluate(strategy, context)
}

#[test]
fn strategies_decide_through_the_strategy_interface() {
    let candles = vec![
        candle(0, d("100"), d("100"), d("100"), d("100")),
        candle(1, d("99"), d("99"), d("99"), d("99")),
        candle(2, d("98"), d("98"), d("98"), d("98")),
        candle(3, d("97"), d("97"), d("97"), d("97")),
        candle(4, d("96"), d("96"), d("96"), d("96")),
        candle(5, d("105"), d("105"), d("105"), d("105")),
    ];
    let sma = SmaCrossoverStrategy::new(2, 5);
    assert_eq!(decide_with(&sma, ctx(Side::Long, candles.clone())), sma.evaluate(ctx(Side::Long, candles.clone())));
    let reversal = ReversalPatternStrategy::default();
    assert_eq!(decide_with(&reversal, ctx(Side::Long, candles.clone())), reversal.evaluate(ctx(Side::Long, candles.clone())));
    let key = KeyLevelStrategy::default();
    assert_eq!(decide_with(&key, ctx(Side::Long, candles.clone())), key.evaluate(ctx(Side::Long, candles)));
}
