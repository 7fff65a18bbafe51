use robson::decimal::Dec;
use robson::trailing::{is_trailing_stop_hit, update_trailing_stop_anchored};
use robson::value_objects::{Price, Side};

fn d(s: &str) -> Dec {
    Dec::parse(s).unwrap()
}

// =========================================================================
// LONG Position Tests
// =========================================================================

#[test]
fn test_long_trailing_stop_moves_up_on_new_high() {
    // Start: entry $95k, stop $93.5k, distance $1.5k
    let side = Side::Long;
    let current_stop = Price::new(d("93500")).unwrap();
    let extreme = Price::new(d("95000")).unwrap();
    let tech_dist = d("1500");

    // Price rises to $96.5k (new high)
    let result = update_trailing_stop_anchored(
        side,
        Price::new(d("96500")).unwrap(),
        extreme,
        current_stop,
        tech_dist,
    );

    assert!(result.is_some());
    let update = result.unwrap();
    // New stop = $96.5k - $1.5k = $95k
    assert_eq!(update.new_stop.as_decimal(), d("95000"));
    assert_eq!(update.new_favorable_extreme.as_decimal(), d("96500"));
}

#[test]
fn test_long_trailing_stop_no_update_when_price_below_extreme() {
    // Already made high at $96.5k, stop is at $95k
    let side = Side::Long;
    let current_stop = Price::new(d("95000")).unwrap();
    let extreme = Price::new(d("96500")).unwrap();
    let tech_dist = d("1500");

    // Price pulls back to $95.5k (not a new high)
    let result = update_trailing_stop_anchored(
        side,
        Price::new(d("95500")).unwrap(),
        extreme,
        current_stop,
        tech_dist,
    );

    assert!(result.is_none());
}

#[test]
fn test_long_trailing_stop_multiple_updates_sequence() {
    let side = Side::Long;
    let tech_dist = d("1500");
    let mut current_stop = Price::new(d("93500")).unwrap();
    let mut extreme = Price::new(d("95000")).unwrap();

    // Sequence: $95k -> $96k -> $97k -> $98k
    let prices = [d("96000"), d("97000"), d("98000")];
    let expected_stops = [d("94500"), d("95500"), d("96500")];

    for (i, price) in prices.iter().enumerate() {
        let result = update_trailing_stop_anchored(
            side,
            Price::new(*price).unwrap(),
            extreme,
            current_stop,
            tech_dist,
        );

        assert!(result.is_some());
        let update = result.unwrap();
        assert_eq!(update.new_stop.as_decimal(), expected_stops[i]);
        assert_eq!(update.new_favorable_extreme.as_decimal(), *price);

        // Update for next iteration
        current_stop = update.new_stop;
        extreme = update.new_favorable_extreme;
    }
}

#[test]
fn test_long_trailing_stop_monotonic_never_goes_down() {
    let side = Side::Long;
    let tech_dist = d("1500");
    let current_stop = Price::new(d("94500")).unwrap(); // Already moved up
    let extreme = Price::new(d("96000")).unwrap();

    // Price drops back to entry
    let result = update_trailing_stop_anchored(
        side,
        Price::new(d("95000")).unwrap(),
        extreme,
        current_stop,
        tech_dist,
    );

    // No update: stop stays at $94.5k (doesn't move down)
    assert!(result.is_none());
}

#[test]
fn trailing_test_long_stop_hit_at_or_below() {
    let stop = Price::new(d("95000")).unwrap();

    // Price AT stop - should exit
    assert!(is_trailing_stop_hit(Side::Long, Price::new(d("95000")).unwrap(), stop));

    // Price BELOW stop - should exit
    assert!(is_trailing_stop_hit(Side::Long, Price::new(d("94900")).unwrap(), stop));

    // Price above stop - should NOT exit
    assert!(!is_trailing_stop_hit(Side::Long, Price::new(d("95100")).unwrap(), stop));
}

// =========================================================================
// SHORT Position Tests
// =========================================================================

#[test]
fn test_short_trailing_stop_moves_down_on_new_low() {
    // Start: entry $95k, stop $96.5k (above), distance $1.5k
    let side = Side::Short;
    let current_stop = Price::new(d("96500")).unwrap();
    let extreme = Price::new(d("95000")).unwrap();
    let tech_dist = d("1500");

    // Price drops to $93.5k (new low)
    let result = update_trailing_stop_anchored(
        side,
        Price::new(d("93500")).unwrap(),
        extreme,
        current_stop,
        tech_dist,
    );

    assert!(result.is_some());
    let update = result.unwrap();
    // New stop = $93.5k + $1.5k = $95k
    assert_eq!(update.new_stop.as_decimal(), d("95000"));
    assert_eq!(update.new_favorable_extreme.as_decimal(), d("93500"));
}

#[test]
fn test_short_trailing_stop_no_update_when_price_above_extreme() {
    // Already made low at $93.5k, stop is at $95k
    let side = Side::Short;
    let current_stop = Price::new(d("95000")).unwrap();
    let extreme = Price::new(d("93500")).unwrap();
    let tech_dist = d("1500");

    // Price rises to $94.5k (not a new low)
    let result = update_trailing_stop_anchored(
        side,
        Price::new(d("94500")).unwrap(),
        extreme,
        current_stop,
        tech_dist,
    );

    assert!(result.is_none());
}

#[test]
fn test_short_trailing_stop_multiple_updates_sequence() {
    let side = Side::Short;
    let tech_dist = d("1500");
    let mut current_stop = Price::new(d("96500")).unwrap();
    let mut extreme = Price::new(d("95000")).unwrap();

    // Sequence: $95k -> $94k -> $93k -> $92k
    let prices = [d("94000"), d("93000"), d("92000")];
    let expected_stops = [d("95500"), d("94500"), d("93500")];

    for (i, price) in prices.iter().enumerate() {
        let result = update_trailing_stop_anchored(
            side,
            Price::new(*price).unwrap(),
            extreme,
            current_stop,
            tech_dist,
        );

        assert!(result.is_some());
        let update = result.unwrap();
        assert_eq!(update.new_stop.as_decimal(), expected_stops[i]);
        assert_eq!(update.new_favorable_extreme.as_decimal(), *price);

        // Update for next iteration
        current_stop = update.new_stop;
        extreme = update.new_favorable_extreme;
    }
}

#[test]
fn test_short_trailing_stop_monotonic_never_goes_up() {
    let side = Side::Short;
    let tech_dist = d("1500");
    let current_stop = Price::new(d("95000")).unwrap(); // Already moved down
    let extreme = Price::new(d("93500")).unwrap();

    // Price rises back to entry
    let result = update_trailing_stop_anchored(
        side,
        Price::new(d("95000")).unwrap(),
        extreme,
        current_stop,
        tech_dist,
    );

    // No update: stop stays at $95k (doesn't move up)
    assert!(result.is_none());
}

#[test]
fn trailing_test_short_stop_hit_at_or_above() {
    let stop = Price::new(d("95000")).unwrap();

    // Price AT stop - should exit
    assert!(is_trailing_stop_hit(Side::Short, Price::new(d("95000")).unwrap(), stop));

    // Price ABOVE stop - should exit
    assert!(is_trailing_stop_hit(Side::Short, Price::new(d("95100")).unwrap(), stop));

    // Price below stop - should NOT exit
    assert!(!is_trailing_stop_hit(Side::Short, Price::new(d("94900")).unwrap(), stop));
}

// =========================================================================
// Edge Cases
// =========================================================================

#[test]
fn test_long_trailing_stop_with_zero_distance_has_no_effect() {
    // Zero distance means stop never moves
    let side = Side::Long;
    let current_stop = Price::new(d("93500")).unwrap();
    let extreme = Price::new(d("95000")).unwrap();
    let tech_dist = d("0");

    // Even with new high, stop won't move (candidate = current)
    let result = update_trailing_stop_anchored(
        side,
        Price::new(d("98000")).unwrap(),
        extreme,
        current_stop,
        tech_dist,
    );

    // No update because candidate_stop (98k - 0 = 98k) > current_stop (93.5k)
    // Wait, actually with zero distance, candidate = new_peak
    // And new_peak > current_stop, so it WOULD update
    // Let's verify the actual behavior:
    // candidate_stop = 98000 - 0 = 98000
    // 98000 > 93500, so update happens
    assert!(result.is_some());
}

#[test]
fn test_favorable_extreme_is_monotonic_long() {
    // Peak only rises, never falls
    let side = Side::Long;
    let tech_dist = d("1500");
    let mut current_stop = Price::new(d("93500")).unwrap();
    let mut extreme = Price::new(d("95000")).unwrap();

    // Price goes up
    let result1 = update_trailing_stop_anchored(
        side,
        Price::new(d("97000")).unwrap(),
        extreme,
        current_stop,
        tech_dist,
    );
    assert!(result1.is_some());
    let update1 = result1.unwrap();
    assert_eq!(update1.new_favorable_extreme.as_decimal(), d("97000"));

    extreme = update1.new_favorable_extreme;
    current_stop = update1.new_stop;

    // Price goes down (peak should stay at 97k)
    let result2 = update_trailing_stop_anchored(
        side,
        Price::new(d("96000")).unwrap(),
        extreme,
        current_stop,
        tech_dist,
    );
    assert!(result2.is_none());
}

#[test]
fn test_favorable_extreme_is_monotonic_short() {
    // Low only falls, never rises
    let side = Side::Short;
    let tech_dist = d("1500");
    let mut current_stop = Price::new(d("96500")).unwrap();
    let mut extreme = Price::new(d("95000")).unwrap();

    // Price goes down
    let result1 = update_trailing_stop_anchored(
        side,
        Price::new(d("93000")).unwrap(),
        extreme,
        current_stop,
        tech_dist,
    );
    assert!(result1.is_some());
    let update1 = result1.unwrap();
    assert_eq!(update1.new_favorable_extreme.as_decimal(), d("93000"));

    extreme = update1.new_favorable_extreme;
    current_stop = update1.new_stop;

    // Price goes up (low should stay at 93k)
    let result2 = update_trailing_stop_anchored(
        side,
        Price::new(d("94000")).unwrap(),
        extreme,
        current_stop,
        tech_dist,
    );
    assert!(result2.is_none());
}
