use robson::decimal::Dec;
use robson::trailing_stop::{is_trailing_stop_hit, update_trailing_stop_discrete};
use robson::value_objects::{Price, Side};

fn d(s: &str) -> Dec {
    Dec::parse(s).unwrap()
}

// Helper: standard LONG position setup
// entry = $95,000, stop = $93,500, span = $1,500
fn long_setup() -> (Side, Price, Price, Price, Dec) {
    (
        Side::Long,
        Price::new(d("95000")).unwrap(), // entry
        Price::new(d("93500")).unwrap(), // initial stop
        Price::new(d("95000")).unwrap(), // initial extreme = entry
        d("1500"),                       // span
    )
}

// Helper: standard SHORT position setup
// entry = $95,000, stop = $96,500, span = $1,500
fn short_setup() -> (Side, Price, Price, Price, Dec) {
    (
        Side::Short,
        Price::new(d("95000")).unwrap(), // entry
        Price::new(d("96500")).unwrap(), // initial stop
        Price::new(d("95000")).unwrap(), // initial extreme = entry
        d("1500"),                       // span
    )
}

// =========================================================================
// LONG: Discrete Step Trailing
// =========================================================================

#[test]
fn test_long_no_update_below_first_span() {
    let (side, entry, stop, extreme, span) = long_setup();

    // Price at $96,000 — less than 1 full span above entry ($96,500 needed)
    let result = update_trailing_stop_discrete(
        side,
        Price::new(d("96000")).unwrap(),
        extreme,
        stop,
        entry,
        span,
    );
    assert!(result.is_none());
}

#[test]
fn test_long_no_update_just_below_span_boundary() {
    let (side, entry, stop, extreme, span) = long_setup();

    // Price at $96,499 — almost 1 span but not complete
    let result = update_trailing_stop_discrete(
        side,
        Price::new(d("96499")).unwrap(),
        extreme,
        stop,
        entry,
        span,
    );
    assert!(result.is_none());
}

#[test]
fn test_long_update_at_exact_span_boundary() {
    let (side, entry, stop, extreme, span) = long_setup();

    // Price at $96,500 — exactly 1 span above entry
    let result = update_trailing_stop_discrete(
        side,
        Price::new(d("96500")).unwrap(),
        extreme,
        stop,
        entry,
        span,
    );
    assert!(result.is_some());
    let update = result.unwrap();
    // Stop moves to $95,000 (breakeven = initial_stop + 1×span)
    assert_eq!(update.new_stop.as_decimal(), d("95000"));
}

#[test]
fn test_long_full_sequence_from_spec() {
    // entry=95000, stop=93500, span=1500
    let (side, entry, _, _, span) = long_setup();
    let mut stop = Price::new(d("93500")).unwrap();
    let mut extreme = Price::new(d("95000")).unwrap();

    // Price 96,500 → stop 95,000
    let r = update_trailing_stop_discrete(
        side,
        Price::new(d("96500")).unwrap(),
        extreme,
        stop,
        entry,
        span,
    )
    .unwrap();
    assert_eq!(r.new_stop.as_decimal(), d("95000"));
    stop = r.new_stop;
    extreme = r.new_favorable_extreme;

    // Price 98,000 → stop 96,500
    let r = update_trailing_stop_discrete(
        side,
        Price::new(d("98000")).unwrap(),
        extreme,
        stop,
        entry,
        span,
    )
    .unwrap();
    assert_eq!(r.new_stop.as_decimal(), d("96500"));
    stop = r.new_stop;
    extreme = r.new_favorable_extreme;

    // Price 99,500 → stop 98,000
    let r = update_trailing_stop_discrete(
        side,
        Price::new(d("99500")).unwrap(),
        extreme,
        stop,
        entry,
        span,
    )
    .unwrap();
    assert_eq!(r.new_stop.as_decimal(), d("98000"));
    stop = r.new_stop;
    extreme = r.new_favorable_extreme;

    // Price drops to 97,200 → no update (stop stays at 98,000)
    let r = update_trailing_stop_discrete(
        side,
        Price::new(d("97200")).unwrap(),
        extreme,
        stop,
        entry,
        span,
    );
    assert!(r.is_none());
    // Position should be closed by is_trailing_stop_hit (97,200 < 98,000)
    assert!(is_trailing_stop_hit(
        Side::Long,
        Price::new(d("97200")).unwrap(),
        stop
    ));
}

#[test]
fn test_long_price_drops_near_stop_recovers_to_entry_no_action() {
    // Price almost hits stop, doesn't, returns to entry.
    // Robson does NOTHING. Stop stays at initial.
    let (side, entry, stop, extreme, span) = long_setup();

    // Price drops to $93,600 (near stop of $93,500 but doesn't hit)
    let r = update_trailing_stop_discrete(
        side,
        Price::new(d("93600")).unwrap(),
        extreme,
        stop,
        entry,
        span,
    );
    assert!(r.is_none());
    assert!(!is_trailing_stop_hit(
        Side::Long,
        Price::new(d("93600")).unwrap(),
        stop
    ));

    // Price recovers to entry ($95,000)
    let r = update_trailing_stop_discrete(
        side,
        Price::new(d("95000")).unwrap(),
        extreme,
        stop,
        entry,
        span,
    );
    assert!(r.is_none()); // No update — haven't completed a span of profit
}

#[test]
fn test_long_monotonic_stop_never_goes_down() {
    let (side, entry, _, _, span) = long_setup();
    let mut stop = Price::new(d("93500")).unwrap();
    let mut extreme = Price::new(d("95000")).unwrap();

    // Price to 96,500 → stop to 95,000
    let r = update_trailing_stop_discrete(
        side,
        Price::new(d("96500")).unwrap(),
        extreme,
        stop,
        entry,
        span,
    )
    .unwrap();
    stop = r.new_stop;
    extreme = r.new_favorable_extreme;
    assert_eq!(stop.as_decimal(), d("95000"));

    // Price drops back — stop must NOT go down
    let r = update_trailing_stop_discrete(
        side,
        Price::new(d("95500")).unwrap(),
        extreme,
        stop,
        entry,
        span,
    );
    assert!(r.is_none()); // Stop stays at 95,000
}

#[test]
fn test_long_large_jump_skips_intermediate_spans() {
    let (side, entry, stop, extreme, span) = long_setup();

    // Price jumps directly to $99,500 (3 spans above entry)
    let r = update_trailing_stop_discrete(
        side,
        Price::new(d("99500")).unwrap(),
        extreme,
        stop,
        entry,
        span,
    )
    .unwrap();
    // 3 completed spans → stop = 93500 + 3×1500 = 98000
    assert_eq!(r.new_stop.as_decimal(), d("98000"));
}

#[test]
fn test_long_between_spans_no_update() {
    let (side, entry, _, _, span) = long_setup();

    // Already at 1 span, stop at 95,000
    let stop = Price::new(d("95000")).unwrap();
    let extreme = Price::new(d("96500")).unwrap();

    // Price at $97,500 — between span 1 boundary (96,500) and span 2 boundary (98,000)
    let r = update_trailing_stop_discrete(
        side,
        Price::new(d("97500")).unwrap(),
        extreme,
        stop,
        entry,
        span,
    );
    assert!(r.is_none()); // Not a full span yet
}

// =========================================================================
// SHORT: Discrete Step Trailing
// =========================================================================

#[test]
fn test_short_no_update_above_first_span() {
    let (side, entry, stop, extreme, span) = short_setup();

    // Price at $94,000 — less than 1 full span below entry ($93,500 needed)
    let result = update_trailing_stop_discrete(
        side,
        Price::new(d("94000")).unwrap(),
        extreme,
        stop,
        entry,
        span,
    );
    assert!(result.is_none());
}

#[test]
fn test_short_update_at_exact_span_boundary() {
    let (side, entry, stop, extreme, span) = short_setup();

    // Price at $93,500 — exactly 1 span below entry
    let result = update_trailing_stop_discrete(
        side,
        Price::new(d("93500")).unwrap(),
        extreme,
        stop,
        entry,
        span,
    );
    assert!(result.is_some());
    let update = result.unwrap();
    // Stop moves to $95,000 (breakeven = initial_stop - 1×span)
    assert_eq!(update.new_stop.as_decimal(), d("95000"));
}

#[test]
fn test_short_full_sequence() {
    let (side, entry, _, _, span) = short_setup();
    let mut stop = Price::new(d("96500")).unwrap();
    let mut extreme = Price::new(d("95000")).unwrap();

    // Price 93,500 → stop 95,000
    let r = update_trailing_stop_discrete(
        side,
        Price::new(d("93500")).unwrap(),
        extreme,
        stop,
        entry,
        span,
    )
    .unwrap();
    assert_eq!(r.new_stop.as_decimal(), d("95000"));
    stop = r.new_stop;
    extreme = r.new_favorable_extreme;

    // Price 92,000 → stop 93,500
    let r = update_trailing_stop_discrete(
        side,
        Price::new(d("92000")).unwrap(),
        extreme,
        stop,
        entry,
        span,
    )
    .unwrap();
    assert_eq!(r.new_stop.as_decimal(), d("93500"));
    stop = r.new_stop;
    extreme = r.new_favorable_extreme;

    // Price 90,500 → stop 92,000
    let r = update_trailing_stop_discrete(
        side,
        Price::new(d("90500")).unwrap(),
        extreme,
        stop,
        entry,
        span,
    )
    .unwrap();
    assert_eq!(r.new_stop.as_decimal(), d("92000"));
    stop = r.new_stop;
    extreme = r.new_favorable_extreme;

    // Price rises to 92,800 → no update, but stop hit
    let r = update_trailing_stop_discrete(
        side,
        Price::new(d("92800")).unwrap(),
        extreme,
        stop,
        entry,
        span,
    );
    assert!(r.is_none());
    assert!(is_trailing_stop_hit(
        Side::Short,
        Price::new(d("92800")).unwrap(),
        stop
    ));
}

#[test]
fn test_short_monotonic_stop_never_goes_up() {
    let (side, entry, _, _, span) = short_setup();
    let mut stop = Price::new(d("96500")).unwrap();
    let mut extreme = Price::new(d("95000")).unwrap();

    // Price to 93,500 → stop to 95,000
    let r = update_trailing_stop_discrete(
        side,
        Price::new(d("93500")).unwrap(),
        extreme,
        stop,
        entry,
        span,
    )
    .unwrap();
    stop = r.new_stop;
    extreme = r.new_favorable_extreme;
    assert_eq!(stop.as_decimal(), d("95000"));

    // Price rises back — stop must NOT go up
    let r = update_trailing_stop_discrete(
        side,
        Price::new(d("94500")).unwrap(),
        extreme,
        stop,
        entry,
        span,
    );
    assert!(r.is_none());
}

// =========================================================================
// Stop Hit Tests (unchanged — same logic)
// =========================================================================

#[test]
fn trailing_stop_test_long_stop_hit_at_or_below() {
    let stop = Price::new(d("95000")).unwrap();
    assert!(is_trailing_stop_hit(
        Side::Long,
        Price::new(d("95000")).unwrap(),
        stop
    ));
    assert!(is_trailing_stop_hit(
        Side::Long,
        Price::new(d("94900")).unwrap(),
        stop
    ));
    assert!(!is_trailing_stop_hit(
        Side::Long,
        Price::new(d("95100")).unwrap(),
        stop
    ));
}

#[test]
fn trailing_stop_test_short_stop_hit_at_or_above() {
    let stop = Price::new(d("95000")).unwrap();
    assert!(is_trailing_stop_hit(
        Side::Short,
        Price::new(d("95000")).unwrap(),
        stop
    ));
    assert!(is_trailing_stop_hit(
        Side::Short,
        Price::new(d("95100")).unwrap(),
        stop
    ));
    assert!(!is_trailing_stop_hit(
        Side::Short,
        Price::new(d("94900")).unwrap(),
        stop
    ));
}

// =========================================================================
// Edge Cases
// =========================================================================

#[test]
fn test_zero_span_returns_none() {
    let (side, entry, stop, extreme, _) = long_setup();
    let result = update_trailing_stop_discrete(
        side,
        Price::new(d("98000")).unwrap(),
        extreme,
        stop,
        entry,
        d("0"),
    );
    assert!(result.is_none());
}

#[test]
fn test_negative_span_returns_none() {
    let (side, entry, stop, extreme, _) = long_setup();
    let result = update_trailing_stop_discrete(
        side,
        Price::new(d("98000")).unwrap(),
        extreme,
        stop,
        entry,
        d("-1500"),
    );
    assert!(result.is_none());
}

#[test]
fn test_price_at_entry_no_update() {
    let (side, entry, stop, extreme, span) = long_setup();
    let result = update_trailing_stop_discrete(
        side, entry, // price exactly at entry
        extreme, stop, entry, span,
    );
    assert!(result.is_none()); // zero profit distance
}

#[test]
fn test_price_below_entry_long_no_update() {
    let (side, entry, stop, extreme, span) = long_setup();
    let result = update_trailing_stop_discrete(
        side,
        Price::new(d("94000")).unwrap(), // below entry
        extreme,
        stop,
        entry,
        span,
    );
    assert!(result.is_none()); // negative profit distance
}

#[test]
fn test_favorable_extreme_tracked_correctly() {
    let (side, entry, stop, extreme, span) = long_setup();

    // Price hits 96,500 — first span
    let r = update_trailing_stop_discrete(
        side,
        Price::new(d("96500")).unwrap(),
        extreme,
        stop,
        entry,
        span,
    )
    .unwrap();
    assert_eq!(r.new_favorable_extreme.as_decimal(), d("96500"));

    // Price drops to 95,500 — extreme should remain at 96,500
    let r2 = update_trailing_stop_discrete(
        side,
        Price::new(d("95500")).unwrap(),
        r.new_favorable_extreme,
        r.new_stop,
        entry,
        span,
    );
    assert!(r2.is_none()); // Peak was already 96,500, price didn't exceed it
}

#[test]
fn test_discrete_step_with_a_tiny_span() {
    // A span far below 2^-53 on a sub-micro price still moves in whole steps.
    let entry = Price::new(d("0.000001")).unwrap();
    let span = d("0.0000000000000000001");
    let stop = Price::new(d("0.0000009999999999999")).unwrap();
    let current = Price::new(d("0.0000010000000000003")).unwrap();
    let update = update_trailing_stop_discrete(Side::Long, current, entry, stop, entry, span).unwrap();
    assert_eq!(update.new_stop.as_decimal(), d("0.0000010000000000002"));
    assert_eq!(update.new_favorable_extreme.as_decimal(), d("0.0000010000000000003"));
}
