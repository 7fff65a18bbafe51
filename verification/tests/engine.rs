use robson::decimal::Dec;
use robson::engine::{Engine, EngineAction, EngineError, MarketData};
use robson::entities::{DetectorSignal, ExitReason, Position, PositionState};
use robson::value_objects::{OrderSide, Price, Quantity, RiskConfig, Side, Symbol, TechnicalStopDistance};

fn d(s: &str) -> Dec {
    Dec::parse(s).unwrap()
}

fn new_uuid_v7() -> u128 {
    uuid::Uuid::now_v7().as_u128()
}

fn now_millis() -> i64 {
    chrono::Utc::now().timestamp_millis()
}

/// Helper to create a test position in Active state
fn create_active_position(
    side: Side,
    entry_price: Dec,
    trailing_stop: Dec,
    favorable_extreme: Dec,
    tech_distance: Dec,
) -> Position {
    let symbol = Symbol::from_pair("BTCUSDT").unwrap();
    let mut position = Position::new(new_uuid_v7(), symbol, side);

    // Set entry price
    position.entry_price = Some(Price::new(entry_price).unwrap());

    // Set tech stop distance
    let stop_price = if side == Side::Long {
        entry_price.checked_sub(tech_distance).unwrap()
    } else {
        entry_price.checked_add(tech_distance).unwrap()
    };
    position.tech_stop_distance = Some(TechnicalStopDistance::from_entry_and_stop(
        Price::new(entry_price).unwrap(),
        Price::new(stop_price).unwrap(),
    ));

    // Set quantity
    position.quantity = Quantity::new(d("0.1")).unwrap();

    // Set active state
    position.state = PositionState::Active {
        current_price: Price::new(entry_price).unwrap(),
        trailing_stop: Price::new(trailing_stop).unwrap(),
        favorable_extreme: Price::new(favorable_extreme).unwrap(),
        extreme_at: now_millis(),
        insurance_stop_id: None,
        last_emitted_stop: None,
    };

    position
}

fn create_market_data(price: Dec) -> MarketData {
    MarketData::new(Symbol::from_pair("BTCUSDT").unwrap(), Price::new(price).unwrap())
}

// =========================================================================
// Long Position Tests
// =========================================================================

#[test]
fn test_long_no_action_price_stable() {
    let config = RiskConfig::new(d("10000"), d("1")).unwrap();
    let engine = Engine::new(config);

    // Position: entry $95k, stop $93.5k, distance $1.5k
    let position = create_active_position(
        Side::Long,
        d("95000"),
        d("93500"), // trailing stop
        d("95000"), // favorable extreme (entry)
        d("1500"),  // tech distance
    );

    // Price stable at entry
    let market = create_market_data(d("95000"));
    let decision = engine.process_active_position(&position, &market).unwrap();

    assert!(!decision.has_actions());
}

#[test]
fn test_long_trailing_stop_update_new_high() {
    let config = RiskConfig::new(d("10000"), d("1")).unwrap();
    let engine = Engine::new(config);

    // Position: entry $95k, stop $93.5k, distance $1.5k
    let position = create_active_position(
        Side::Long,
        d("95000"),
        d("93500"), // trailing stop
        d("95000"), // favorable extreme
        d("1500"),  // tech distance
    );

    // Price moved up to $96k (new high!)
    let market = create_market_data(d("96000"));
    let decision = engine.process_active_position(&position, &market).unwrap();

    assert!(decision.has_actions());
    assert_eq!(decision.actions.len(), 2);

    // Check first action is UpdateTrailingStop
    match &decision.actions[0] {
        EngineAction::UpdateTrailingStop { new_stop, previous_stop, .. } => {
            // New stop should be $96k - $1.5k = $94.5k
            assert_eq!(new_stop.as_decimal(), d("94500"));
            assert_eq!(previous_stop.as_decimal(), d("93500"));
        },
        _ => panic!("Expected UpdateTrailingStop action"),
    }
}

#[test]
fn test_long_trailing_stop_no_update_price_below_extreme() {
    let config = RiskConfig::new(d("10000"), d("1")).unwrap();
    let engine = Engine::new(config);

    // Position already made a high at $96k
    let position = create_active_position(
        Side::Long,
        d("95000"),
        d("94500"), // trailing stop (from $96k high)
        d("96000"), // favorable extreme
        d("1500"),  // tech distance
    );

    // Price pulled back to $95.5k (still above stop, below extreme)
    let market = create_market_data(d("95500"));
    let decision = engine.process_active_position(&position, &market).unwrap();

    // No update - price is below favorable extreme
    assert!(!decision.has_actions());
}

#[test]
fn test_long_exit_triggered_stop_hit() {
    let config = RiskConfig::new(d("10000"), d("1")).unwrap();
    let engine = Engine::new(config);

    let position = create_active_position(
        Side::Long,
        d("95000"),
        d("94500"), // trailing stop
        d("96000"), // favorable extreme
        d("1500"),  // tech distance
    );

    // Price dropped to stop level
    let market = create_market_data(d("94500"));
    let decision = engine.process_active_position(&position, &market).unwrap();

    assert!(decision.has_actions());

    // Check for TriggerExit action
    let has_exit = decision.actions.iter().any(|a| {
        matches!(a, EngineAction::TriggerExit { reason, .. } if *reason == ExitReason::TrailingStop)
    });
    assert!(has_exit, "Should have TriggerExit action");

    // Check for PlaceExitOrder action
    let has_order = decision.actions.iter().any(|a| {
        matches!(a, EngineAction::PlaceExitOrder { side, .. } if *side == OrderSide::Sell)
    });
    assert!(has_order, "Should have PlaceExitOrder with Sell side");
}

#[test]
fn test_long_exit_triggered_price_below_stop() {
    let config = RiskConfig::new(d("10000"), d("1")).unwrap();
    let engine = Engine::new(config);

    let position = create_active_position(
        Side::Long,
        d("95000"),
        d("94500"), // trailing stop
        d("96000"), // favorable extreme
        d("1500"),  // tech distance
    );

    // Price crashed below stop (gap down scenario)
    let market = create_market_data(d("94000"));
    let decision = engine.process_active_position(&position, &market).unwrap();

    assert!(decision.has_actions());
    let has_exit =
        decision.actions.iter().any(|a| matches!(a, EngineAction::TriggerExit { .. }));
    assert!(has_exit);
}

// =========================================================================
// Short Position Tests
// =========================================================================

#[test]
fn test_short_no_action_price_stable() {
    let config = RiskConfig::new(d("10000"), d("1")).unwrap();
    let engine = Engine::new(config);

    // Short position: entry $95k, stop $96.5k, distance $1.5k
    let position = create_active_position(
        Side::Short,
        d("95000"),
        d("96500"), // trailing stop (above entry for short)
        d("95000"), // favorable extreme (entry)
        d("1500"),  // tech distance
    );

    let market = create_market_data(d("95000"));
    let decision = engine.process_active_position(&position, &market).unwrap();

    assert!(!decision.has_actions());
}

#[test]
fn test_short_trailing_stop_update_new_low() {
    let config = RiskConfig::new(d("10000"), d("1")).unwrap();
    let engine = Engine::new(config);

    let position = create_active_position(
        Side::Short,
        d("95000"),
        d("96500"), // trailing stop
        d("95000"), // favorable extreme
        d("1500"),  // tech distance
    );

    // Price moved down to $94k (new low!)
    let market = create_market_data(d("94000"));
    let decision = engine.process_active_position(&position, &market).unwrap();

    assert!(decision.has_actions());

    match &decision.actions[0] {
        EngineAction::UpdateTrailingStop { new_stop, previous_stop, .. } => {
            // New stop should be $94k + $1.5k = $95.5k
            assert_eq!(new_stop.as_decimal(), d("95500"));
            assert_eq!(previous_stop.as_decimal(), d("96500"));
        },
        _ => panic!("Expected UpdateTrailingStop action"),
    }
}

#[test]
fn test_short_exit_triggered_stop_hit() {
    let config = RiskConfig::new(d("10000"), d("1")).unwrap();
    let engine = Engine::new(config);

    let position = create_active_position(
        Side::Short,
        d("95000"),
        d("95500"), // trailing stop (tightened from gains)
        d("94000"), // favorable extreme (made money)
        d("1500"),  // tech distance
    );

    // Price rose to stop level
    let market = create_market_data(d("95500"));
    let decision = engine.process_active_position(&position, &market).unwrap();

    assert!(decision.has_actions());

    // Check for PlaceExitOrder with Buy side (closing short)
    let has_order = decision.actions.iter().any(|a| {
        matches!(a, EngineAction::PlaceExitOrder { side, .. } if *side == OrderSide::Buy)
    });
    assert!(has_order, "Should have PlaceExitOrder with Buy side for short exit");
}

// =========================================================================
// Error Cases
// =========================================================================

#[test]
fn test_error_position_not_active() {
    let config = RiskConfig::new(d("10000"), d("1")).unwrap();
    let engine = Engine::new(config);

    // Create armed position (not active)
    let position =
        Position::new(new_uuid_v7(), Symbol::from_pair("BTCUSDT").unwrap(), Side::Long);

    let market = create_market_data(d("95000"));
    let result = engine.process_active_position(&position, &market);

    assert!(result.is_err());
    match result.unwrap_err() {
        EngineError::InvalidPositionState { expected, actual } => {
            assert_eq!(expected, "active");
            assert_eq!(actual, "armed");
        },
        _ => panic!("Expected InvalidPositionState error"),
    }
}

#[test]
fn test_error_symbol_mismatch() {
    let config = RiskConfig::new(d("10000"), d("1")).unwrap();
    let engine = Engine::new(config);

    let position =
        create_active_position(Side::Long, d("95000"), d("93500"), d("95000"), d("1500"));

    // Market data for different symbol
    let market =
        MarketData::new(Symbol::from_pair("ETHUSDT").unwrap(), Price::new(d("3000")).unwrap());

    let result = engine.process_active_position(&position, &market);
    assert!(result.is_err());
    assert!(matches!(result.unwrap_err(), EngineError::InvalidMarketData(_)));
}

// =========================================================================
// Edge Cases
// =========================================================================

#[test]
fn test_long_multiple_updates_sequence() {
    let config = RiskConfig::new(d("10000"), d("1")).unwrap();
    let engine = Engine::new(config);

    // Simulate price moving up in steps
    let mut current_stop = d("93500");
    let mut favorable_extreme = d("95000");

    for new_price in [d("96000"), d("97000"), d("98000")] {
        let position = create_active_position(
            Side::Long,
            d("95000"),
            current_stop,
            favorable_extreme,
            d("1500"),
        );

        let market = create_market_data(new_price);
        let decision = engine.process_active_position(&position, &market).unwrap();

        if decision.has_actions() {
            if let EngineAction::UpdateTrailingStop { new_stop, .. } = &decision.actions[0] {
                // Update for next iteration
                current_stop = new_stop.as_decimal();
                favorable_extreme = new_price;
            }
        }
    }

    // After three moves up ($95k -> $96k -> $97k -> $98k)
    // Stop should be at $98k - $1.5k = $96.5k
    assert_eq!(current_stop, d("96500"));
}

#[test]
fn test_exit_takes_priority_over_update() {
    let config = RiskConfig::new(d("10000"), d("1")).unwrap();
    let engine = Engine::new(config);

    // Edge case: price gaps through both update and exit levels
    // This shouldn't happen in practice, but let's ensure exit takes priority
    let position = create_active_position(
        Side::Long,
        d("95000"),
        d("94000"), // trailing stop
        d("95000"), // favorable extreme
        d("1500"),  // tech distance
    );

    // Price crashed below stop
    let market = create_market_data(d("93000"));
    let decision = engine.process_active_position(&position, &market).unwrap();

    // Should exit, not update
    let has_exit =
        decision.actions.iter().any(|a| matches!(a, EngineAction::TriggerExit { .. }));
    assert!(has_exit, "Exit should take priority");
}

// =========================================================================
// Entry Logic Tests
// =========================================================================

/// Helper to create an armed position for entry tests
fn create_armed_position(side: Side) -> Position {
    let symbol = Symbol::from_pair("BTCUSDT").unwrap();
    Position::new(new_uuid_v7(), symbol, side)
}

/// Helper to create a detector signal
fn create_detector_signal(
    position: &Position,
    entry_price: Dec,
    stop_loss: Dec,
) -> DetectorSignal {
    DetectorSignal::new(
        position.id,
        position.symbol.clone(),
        position.side,
        Price::new(entry_price).unwrap(),
        Price::new(stop_loss).unwrap(),
    )
}

#[test]
fn test_decide_entry_long_success() {
    let config = RiskConfig::new(d("10000"), d("1")).unwrap();
    let engine = Engine::new(config);

    let position = create_armed_position(Side::Long);
    let signal = create_detector_signal(&position, d("95000"), d("93500"));

    let decision = engine.decide_entry(&position, &signal).unwrap();

    // Should have 2 actions: EmitEvent + PlaceEntryOrder
    assert_eq!(decision.actions.len(), 2);

    // Check PlaceEntryOrder action
    let has_entry_order = decision.actions.iter().any(|a| {
        matches!(a, EngineAction::PlaceEntryOrder { side: OrderSide::Buy, .. })
    });
    assert!(has_entry_order, "Should have PlaceEntryOrder with Buy side");

    // Check updated position
    let updated_position = decision.updated_position.expect("Should have updated position");
    assert!(matches!(
        updated_position.state,
        PositionState::Entering { signal_id, .. } if signal_id == signal.signal_id
    ));

    // Verify position sizing (Golden Rule)
    // Capital: $10,000, Risk: 1% = $100 max risk
    // Stop distance: $1,500
    // Expected size: $100 / $1,500 = 0.0666... BTC
    let expected_size = d("100").checked_div(d("1500")).unwrap();
    assert_eq!(updated_position.quantity.as_decimal(), expected_size);
}

#[test]
fn test_decide_entry_short_success() {
    let config = RiskConfig::new(d("10000"), d("1")).unwrap();
    let engine = Engine::new(config);

    let position = create_armed_position(Side::Short);
    // For short: stop is above entry
    let signal = create_detector_signal(&position, d("95000"), d("96500"));

    let decision = engine.decide_entry(&position, &signal).unwrap();

    // Check PlaceEntryOrder has Sell side (short entry)
    let has_entry_order = decision.actions.iter().any(|a| {
        matches!(a, EngineAction::PlaceEntryOrder { side: OrderSide::Sell, .. })
    });
    assert!(has_entry_order, "Should have PlaceEntryOrder with Sell side for short");
}

#[test]
fn test_decide_entry_rejects_non_armed() {
    let config = RiskConfig::new(d("10000"), d("1")).unwrap();
    let engine = Engine::new(config);

    // Create an Active position (not Armed)
    let position =
        create_active_position(Side::Long, d("95000"), d("93500"), d("95000"), d("1500"));

    let signal = DetectorSignal::new(
        position.id,
        position.symbol.clone(),
        position.side,
        Price::new(d("95000")).unwrap(),
        Price::new(d("93500")).unwrap(),
    );

    let result = engine.decide_entry(&position, &signal);

    assert!(result.is_err());
    match result.unwrap_err() {
        EngineError::InvalidPositionState { expected, actual } => {
            assert_eq!(expected, "armed");
            assert_eq!(actual, "active");
        },
        _ => panic!("Expected InvalidPositionState error"),
    }
}

#[test]
fn test_decide_entry_rejects_signal_mismatch() {
    let config = RiskConfig::new(d("10000"), d("1")).unwrap();
    let engine = Engine::new(config);

    let position = create_armed_position(Side::Long);

    // Create signal with different position_id
    let signal = DetectorSignal::new(
        new_uuid_v7(), // Different position ID!
        position.symbol.clone(),
        position.side,
        Price::new(d("95000")).unwrap(),
        Price::new(d("93500")).unwrap(),
    );

    let result = engine.decide_entry(&position, &signal);

    assert!(result.is_err());
    assert!(matches!(result.unwrap_err(), EngineError::DomainError(_)));
}

#[test]
fn test_decide_entry_validates_tech_stop() {
    let config = RiskConfig::new(d("10000"), d("1")).unwrap();
    let engine = Engine::new(config);

    let position = create_armed_position(Side::Long);

    // Create signal with stop too wide (>10%)
    let signal = create_detector_signal(&position, d("100"), d("80")); // 20% distance

    let result = engine.decide_entry(&position, &signal);

    assert!(result.is_err());
    assert!(matches!(result.unwrap_err(), EngineError::DomainError(_)));
}

#[test]
fn test_process_entry_fill_long() {
    let config = RiskConfig::new(d("10000"), d("1")).unwrap();
    let engine = Engine::new(config);

    // First, create a position in Entering state
    let position = create_armed_position(Side::Long);
    let signal = create_detector_signal(&position, d("95000"), d("93500"));
    let entry_decision = engine.decide_entry(&position, &signal).unwrap();
    let entering_position = entry_decision.updated_position.unwrap();

    // Now process the fill
    let fill_price = Price::new(d("95100")).unwrap(); // Slightly higher than expected
    let filled_quantity = Quantity::new(d("0.0666666666666666666666666667")).unwrap();

    let fill_decision = engine
        .process_entry_fill(&entering_position, fill_price, filled_quantity)
        .unwrap();

    // Check updated position is Active
    let active_position = fill_decision.updated_position.expect("Should have updated position");
    match &active_position.state {
        PositionState::Active {
            current_price,
            trailing_stop,
            favorable_extreme,
            ..
        } => {
            assert_eq!(current_price.as_decimal(), d("95100"));
            assert_eq!(favorable_extreme.as_decimal(), d("95100"));
            // Initial trailing stop = 95100 - 1500 = 93600
            assert_eq!(trailing_stop.as_decimal(), d("93600"));
        },
        other => panic!("Expected Active state, got {:?}", other.name()),
    }
}

#[test]
fn test_process_entry_fill_short() {
    let config = RiskConfig::new(d("10000"), d("1")).unwrap();
    let engine = Engine::new(config);

    // Create a short position in Entering state
    let position = create_armed_position(Side::Short);
    let signal = create_detector_signal(&position, d("95000"), d("96500")); // Short: stop above
    let entry_decision = engine.decide_entry(&position, &signal).unwrap();
    let entering_position = entry_decision.updated_position.unwrap();

    // Process the fill
    let fill_price = Price::new(d("94900")).unwrap(); // Slightly lower (favorable for short)
    let filled_quantity = Quantity::new(d("0.0666666666666666666666666667")).unwrap();

    let fill_decision = engine
        .process_entry_fill(&entering_position, fill_price, filled_quantity)
        .unwrap();

    // Check trailing stop for short
    let active_position = fill_decision.updated_position.expect("Should have updated position");
    match &active_position.state {
        PositionState::Active { trailing_stop, favorable_extreme, .. } => {
            assert_eq!(favorable_extreme.as_decimal(), d("94900"));
            // Initial trailing stop = 94900 + 1500 = 96400
            assert_eq!(trailing_stop.as_decimal(), d("96400"));
        },
        other => panic!("Expected Active state, got {:?}", other.name()),
    }
}

#[test]
fn test_process_entry_fill_rejects_non_entering() {
    let config = RiskConfig::new(d("10000"), d("1")).unwrap();
    let engine = Engine::new(config);

    // Use an Armed position (not Entering)
    let position = create_armed_position(Side::Long);

    let fill_price = Price::new(d("95000")).unwrap();
    let filled_quantity = Quantity::new(d("0.1")).unwrap();

    let result = engine.process_entry_fill(&position, fill_price, filled_quantity);

    assert!(result.is_err());
    match result.unwrap_err() {
        EngineError::InvalidPositionState { expected, actual } => {
            assert_eq!(expected, "entering");
            assert_eq!(actual, "armed");
        },
        _ => panic!("Expected InvalidPositionState error"),
    }
}

#[test]
fn test_full_entry_to_exit_flow() {
    let config = RiskConfig::new(d("10000"), d("1")).unwrap();
    let engine = Engine::new(config);

    // 1. Armed position
    let position = create_armed_position(Side::Long);
    assert!(position.can_enter());
    assert!(!position.can_exit());

    // 2. Detector fires signal
    let signal = create_detector_signal(&position, d("95000"), d("93500"));
    let entry_decision = engine.decide_entry(&position, &signal).unwrap();
    let entering_position = entry_decision.updated_position.unwrap();

    // Position is now Entering
    assert!(matches!(entering_position.state, PositionState::Entering { .. }));

    // 3. Entry fill received
    let fill_price = Price::new(d("95000")).unwrap();
    let filled_quantity = entering_position.quantity;
    let fill_decision = engine
        .process_entry_fill(&entering_position, fill_price, filled_quantity)
        .unwrap();
    let active_position = fill_decision.updated_position.unwrap();

    // Position is now Active
    assert!(active_position.can_exit());
    assert!(!active_position.can_enter());

    // 4. Price moves up, trailing stop updates
    let market_up = create_market_data(d("97000"));
    let update_decision = engine.process_active_position(&active_position, &market_up).unwrap();
    assert!(update_decision.has_actions());

    // 5. Simulate price hitting trailing stop (exit)
    // After price went to 97k, trailing stop should be 97k - 1.5k = 95.5k
    // Create position with updated trailing stop for this test
    let mut position_after_update = active_position.clone();
    position_after_update.state = PositionState::Active {
        current_price: Price::new(d("97000")).unwrap(),
        trailing_stop: Price::new(d("95500")).unwrap(),
        favorable_extreme: Price::new(d("97000")).unwrap(),
        extreme_at: now_millis(),
        insurance_stop_id: None,
        last_emitted_stop: Some(Price::new(d("95500")).unwrap()),
    };

    // Price drops to trailing stop
    let market_exit = create_market_data(d("95500"));
    let exit_decision =
        engine.process_active_position(&position_after_update, &market_exit).unwrap();

    // Should trigger exit
    let has_exit = exit_decision
        .actions
        .iter()
        .any(|a| matches!(a, EngineAction::TriggerExit { .. }));
    assert!(has_exit, "Should trigger exit when trailing stop is hit");
}

// =========================================================================
// Idempotency Tests
// =========================================================================

#[test]
fn test_idempotent_trailing_stop_update_same_tick() {
    let config = RiskConfig::new(d("10000"), d("1")).unwrap();
    let engine = Engine::new(config);

    // Position: entry $95k, stop $93.5k, distance $1.5k
    // Price already moved to $97k, trailing stop moved to $95.5k
    let position = create_active_position(
        Side::Long,
        d("95000"),
        d("94500"), // trailing stop (previous update from $96k high)
        d("96000"), // favorable extreme
        d("1500"),  // tech distance
    );

    // Create position with last_emitted_stop set
    let mut position_with_emitted = position.clone();
    if let PositionState::Active {
        current_price,
        trailing_stop,
        favorable_extreme,
        extreme_at,
        insurance_stop_id,
        ..
    } = position_with_emitted.state
    {
        position_with_emitted.state = PositionState::Active {
            current_price,
            trailing_stop,
            favorable_extreme,
            extreme_at,
            insurance_stop_id,
            last_emitted_stop: Some(Price::new(d("94500")).unwrap()), // Already emitted $94.5k
        };
    }

    // Process same price again ($96k - same as favorable extreme)
    // This should NOT trigger a new trailing stop update (idempotency)
    let market = create_market_data(d("96000"));
    let decision = engine
        .process_active_position(&position_with_emitted, &market)
        .unwrap();

    // No action should be taken because:
    // 1. Price ($96k) is not above favorable_extreme ($96k) - it's equal
    // 2. Even if calculated, the new stop would be same as last_emitted_stop
    assert!(!decision.has_actions(), "Should not emit duplicate trailing stop update");
}

#[test]
fn test_idempotent_trailing_stop_update_repeated_same_price() {
    let config = RiskConfig::new(d("10000"), d("1")).unwrap();
    let engine = Engine::new(config);

    // Position: entry $95k, stop $93.5k, distance $1.5k
    let position = create_active_position(
        Side::Long,
        d("95000"),
        d("94500"), // trailing stop
        d("96000"), // favorable extreme (price went to $96k)
        d("1500"),  // tech distance
    );

    // Create position with last_emitted_stop set to current trailing stop
    let mut position_with_emitted = position.clone();
    if let PositionState::Active {
        current_price,
        trailing_stop,
        favorable_extreme,
        extreme_at,
        insurance_stop_id,
        ..
    } = position_with_emitted.state
    {
        position_with_emitted.state = PositionState::Active {
            current_price,
            trailing_stop,
            favorable_extreme,
            extreme_at,
            insurance_stop_id,
            last_emitted_stop: Some(Price::new(d("94500")).unwrap()), // Already emitted
        };
    }

    // Process same price multiple times (simulating duplicate ticks)
    let market = create_market_data(d("95500")); // Price below extreme, no update
    let decision1 = engine
        .process_active_position(&position_with_emitted, &market)
        .unwrap();
    let decision2 = engine
        .process_active_position(&position_with_emitted, &market)
        .unwrap();
    let decision3 = engine
        .process_active_position(&position_with_emitted, &market)
        .unwrap();

    // None should trigger updates
    assert!(!decision1.has_actions());
    assert!(!decision2.has_actions());
    assert!(!decision3.has_actions());
}


#[test]
fn test_engine_error_messages() {
    let config = RiskConfig::new(d("10000"), d("1")).unwrap();
    let engine = Engine::new(config);
    let position = Position::new(new_uuid_v7(), Symbol::from_pair("BTCUSDT").unwrap(), Side::Long);
    let err = engine.process_active_position(&position, &create_market_data(d("95000"))).unwrap_err();
    assert_eq!(err.display(), "Invalid position state: expected active, got armed");
}

#[test]
fn test_short_trailing_stop_sequence_and_exit_order_side() {
    let config = RiskConfig::new(d("10000"), d("1")).unwrap();
    let engine = Engine::new(config);
    let position = create_active_position(Side::Short, d("95000"), d("96500"), d("95000"), d("1500"));
    let decision = engine.process_active_position(&position, &create_market_data(d("93000"))).unwrap();
    match &decision.actions[0] {
        EngineAction::UpdateTrailingStop { new_stop, .. } => assert_eq!(new_stop.as_decimal(), d("94500")),
        _ => panic!("Expected UpdateTrailingStop action"),
    }
    // The updated position holds the new stop, the new extreme and price.
    let updated = decision.updated_position.expect("updated position");
    match updated.state {
        PositionState::Active { current_price, trailing_stop, favorable_extreme, last_emitted_stop, .. } => {
            assert_eq!(current_price.as_decimal(), d("93000"));
            assert_eq!(trailing_stop.as_decimal(), d("94500"));
            assert_eq!(favorable_extreme.as_decimal(), d("93000"));
            assert_eq!(last_emitted_stop.map(|p| p.as_decimal()), Some(d("94500")));
        },
        _ => panic!("Expected Active state"),
    }
    let moved = updated;
    let exit = engine.process_active_position(&moved, &create_market_data(d("94600"))).unwrap();
    assert!(exit.actions.iter().any(|a| matches!(a, EngineAction::PlaceExitOrder { side: OrderSide::Buy, .. })));
}

#[test]
fn test_trailing_stop_update_moves_state() {
    let engine = Engine::new(RiskConfig::new(d("10000"), d("1")).unwrap());
    let mut position = create_active_position(Side::Long, d("95000"), d("93500"), d("95000"), d("1500"));
    if let PositionState::Active { current_price, trailing_stop, favorable_extreme, extreme_at, insurance_stop_id, .. } = position.state {
        position.state = PositionState::Active {
            current_price,
            trailing_stop,
            favorable_extreme,
            extreme_at,
            insurance_stop_id,
            last_emitted_stop: Some(trailing_stop),
        };
    }
    let decision = engine.process_active_position(&position, &create_market_data(d("96500"))).unwrap();
    let updated = decision.updated_position.expect("updated position");
    match updated.state {
        PositionState::Active { current_price, trailing_stop, favorable_extreme, .. } => {
            assert_eq!(current_price.as_decimal(), d("96500"));
            assert_eq!(trailing_stop.as_decimal(), d("95000"));
            assert_eq!(favorable_extreme.as_decimal(), d("96500"));
        },
        _ => panic!("Position should still be Active"),
    }
    assert!(decision.actions.iter().any(|a| matches!(a, EngineAction::EmitEvent(robson::events::Event::TrailingStopUpdated { .. }))));
    let exit = engine.process_active_position(&updated, &create_market_data(d("95000"))).unwrap();
    assert!(exit.actions.iter().any(|a| matches!(a, EngineAction::TriggerExit { .. })));
}

fn gap_candle(high: &str, low: &str, close_time: i64) -> robson::market_data::Candle {
    robson::market_data::Candle::new(
        Symbol::from_pair("BTCUSDT").unwrap(),
        d(low),
        d(high),
        d(low),
        d(high),
        d("1"),
        1,
        close_time - 59_999,
        close_time,
    )
}

#[test]
fn test_replay_gap_moves_stop_and_reports_cross() {
    let engine = Engine::new(RiskConfig::new(d("10000"), d("1")).unwrap());
    let position = create_active_position(Side::Long, d("95000"), d("93500"), d("95000"), d("1500"));
    // An empty gap changes nothing.
    let (same, crossed, events) = robson::recovery::replay_gap(&engine, &position, &vec![]).unwrap();
    assert!(events.is_empty());
    assert_eq!(same.id, position.id);
    assert_eq!(same.updated_at, position.updated_at);
    match same.state {
        PositionState::Active { trailing_stop, .. } => assert_eq!(trailing_stop.as_decimal(), d("93500")),
        _ => panic!("Position should still be Active"),
    }
    assert!(!crossed);
    // The first candle's high moves the stop to 95000; its low stays above.
    let gap = vec![gap_candle("96500", "95500", 60_000)];
    let (moved, crossed, events) = robson::recovery::replay_gap(&engine, &position, &gap).unwrap();
    assert!(!crossed);
    assert_eq!(events.len(), 1);
    match &events[0] {
        robson::events::Event::TrailingStopUpdated { position_id, previous_stop, new_stop, trigger_price, .. } => {
            assert_eq!(*position_id, position.id);
            assert_eq!(previous_stop.as_decimal(), d("93500"));
            assert_eq!(new_stop.as_decimal(), d("95000"));
            assert_eq!(trigger_price.as_decimal(), d("96500"));
        },
        other => panic!("expected a stop update, got {:?}", other),
    }
    match moved.state {
        PositionState::Active { current_price, trailing_stop, favorable_extreme, last_emitted_stop, .. } => {
            assert_eq!(current_price.as_decimal(), d("96500"));
            assert_eq!(trailing_stop.as_decimal(), d("95000"));
            assert_eq!(favorable_extreme.as_decimal(), d("96500"));
            assert_eq!(last_emitted_stop.map(|p| p.as_decimal()), Some(d("95000")));
        },
        _ => panic!("Position should still be Active"),
    }
    // The second candle's low crosses the stop: reported, not materialised.
    let gap = vec![gap_candle("96500", "95500", 60_000), gap_candle("96000", "94800", 120_000)];
    let (kept, crossed, events) = robson::recovery::replay_gap(&engine, &position, &gap).unwrap();
    assert!(crossed);
    assert_eq!(events.len(), 1);
    match kept.state {
        PositionState::Active { trailing_stop, .. } => assert_eq!(trailing_stop.as_decimal(), d("95000")),
        _ => panic!("Position should still be Active"),
    }
    // A position that is not Active is refused by the engine.
    let mut closed = position.clone();
    closed.state = PositionState::Armed;
    assert!(matches!(
        robson::recovery::replay_gap(&engine, &closed, &gap),
        Err(EngineError::InvalidPositionState { .. })
    ));
}
