use robson::decimal::Dec;
use robson::risk::{PositionSummary, ProposedTrade, RiskCheck, RiskContext, RiskGate, RiskLimits, RiskVerdict};

fn d(s: &str) -> Dec {
    Dec::parse(s).unwrap()
}

fn sample_context() -> RiskContext {
    RiskContext::new(d("10000"))
}

fn sample_proposed() -> ProposedTrade {
    ProposedTrade {
        symbol: "BTCUSDT".to_string(),
        side: "long".to_string(),
        quantity: d("0.02"), // 0.02 BTC
        entry_price: d("50000"),
        notional_value: d("1000"), // $1,000 (within 15% single position limit)
        margin_required: d("100"),
    }
}

#[test]
fn test_risk_gate_approves_normal_trade() {
    let gate = RiskGate::new();
    let context = sample_context();
    let proposed = sample_proposed();

    let verdict = gate.evaluate(&proposed, &context);
    assert_eq!(verdict, RiskVerdict::Approved);
}

#[test]
fn test_risk_gate_rejects_max_positions() {
    let gate = RiskGate::new();
    let context = RiskContext::with_positions(d("10000"), vec![
        PositionSummary {
            position_id: 0,
            symbol: "ETHUSDT".to_string(),
            side: "long".to_string(),
            notional_value: d("3000"),
            margin_used: d("300"),
            unrealized_pnl: d("0"),
        };
        3
    ]);
    let proposed = sample_proposed();

    let verdict = gate.evaluate(&proposed, &context);
    assert!(matches!(verdict, RiskVerdict::Rejected {
        check: RiskCheck::MaxOpenPositions,
        ..
    }));
}

#[test]
fn test_risk_gate_rejects_total_exposure() {
    let gate = RiskGate::new();
    let context = RiskContext::with_positions(d("10000"), vec![PositionSummary {
        position_id: 0,
        symbol: "ETHUSDT".to_string(),
        side: "long".to_string(),
        notional_value: d("2900"),
        margin_used: d("290"),
        unrealized_pnl: d("0"),
    }]);
    // 2900 + 5000 = 7900 > 3000 (30% of 10000)
    let proposed = ProposedTrade {
        symbol: "BTCUSDT".to_string(),
        side: "long".to_string(),
        quantity: d("0.1"),
        entry_price: d("50000"),
        notional_value: d("5000"),
        margin_required: d("500"),
    };

    let verdict = gate.evaluate(&proposed, &context);
    assert!(matches!(verdict, RiskVerdict::Rejected { check: RiskCheck::TotalExposure, .. }));
}

#[test]
fn test_risk_gate_rejects_single_concentration() {
    let gate = RiskGate::new();
    let context = sample_context();
    // 2000 > 1500 (15% of 10000)
    let proposed = ProposedTrade {
        symbol: "BTCUSDT".to_string(),
        side: "long".to_string(),
        quantity: d("0.04"),
        entry_price: d("50000"),
        notional_value: d("2000"),
        margin_required: d("200"),
    };

    let verdict = gate.evaluate(&proposed, &context);
    assert!(matches!(verdict, RiskVerdict::Rejected {
        check: RiskCheck::SinglePositionConcentration,
        ..
    }));
}

#[test]
fn test_risk_gate_rejects_duplicate_position() {
    let gate = RiskGate::new();
    let context = RiskContext::with_positions(d("10000"), vec![PositionSummary {
        position_id: 0,
        symbol: "BTCUSDT".to_string(),
        side: "long".to_string(),
        notional_value: d("1000"),
        margin_used: d("100"),
        unrealized_pnl: d("0"),
    }]);
    let proposed = sample_proposed(); // BTCUSDT long

    let verdict = gate.evaluate(&proposed, &context);
    assert!(matches!(verdict, RiskVerdict::Rejected {
        check: RiskCheck::DuplicatePosition,
        ..
    }));
}

#[test]
fn test_risk_gate_rejects_monthly_drawdown() {
    let gate = RiskGate::new();
    let context = RiskContext {
        capital: d("10000"),
        open_positions: vec![],
        total_notional_exposure: Dec::zero(),
        monthly_realized_pnl: d("-350"),
        monthly_unrealized_pnl: d("-100"),
        daily_realized_pnl: Dec::zero(),
        daily_unrealized_pnl: Dec::zero(),
    };
    // Monthly PnL = -450 < -400 (4% of 10000)
    let proposed = sample_proposed();

    let verdict = gate.evaluate(&proposed, &context);
    assert!(matches!(verdict, RiskVerdict::Rejected {
        check: RiskCheck::MonthlyDrawdown,
        ..
    }));
}

#[test]
fn test_risk_gate_allows_within_monthly_drawdown() {
    let gate = RiskGate::new();
    let context = RiskContext {
        capital: d("10000"),
        open_positions: vec![],
        total_notional_exposure: Dec::zero(),
        monthly_realized_pnl: d("-300"),
        monthly_unrealized_pnl: d("0"),
        daily_realized_pnl: Dec::zero(),
        daily_unrealized_pnl: Dec::zero(),
    };
    // Monthly PnL = -300, limit is -400. Still within limit.
    let proposed = sample_proposed();

    let verdict = gate.evaluate(&proposed, &context);
    assert_eq!(verdict, RiskVerdict::Approved);
}

#[test]
fn test_risk_gate_allows_at_399_pct_monthly_drawdown() {
    let gate = RiskGate::new();
    let context = RiskContext {
        capital: d("10000"),
        open_positions: vec![],
        total_notional_exposure: Dec::zero(),
        // -399 is 3.99% of 10000 — just below the 4% threshold
        monthly_realized_pnl: d("-399"),
        monthly_unrealized_pnl: d("0"),
        daily_realized_pnl: Dec::zero(),
        daily_unrealized_pnl: Dec::zero(),
    };
    let proposed = sample_proposed();

    let verdict = gate.evaluate(&proposed, &context);
    assert_eq!(verdict, RiskVerdict::Approved, "3.99% monthly loss must be allowed");
}

#[test]
fn test_risk_gate_blocks_at_exactly_4_pct_monthly_drawdown() {
    let gate = RiskGate::new();
    let context = RiskContext {
        capital: d("10000"),
        open_positions: vec![],
        total_notional_exposure: Dec::zero(),
        // -400 is exactly 4.00% of 10000 — must be blocked
        monthly_realized_pnl: d("-400"),
        monthly_unrealized_pnl: d("0"),
        daily_realized_pnl: Dec::zero(),
        daily_unrealized_pnl: Dec::zero(),
    };
    let proposed = sample_proposed();

    let verdict = gate.evaluate(&proposed, &context);
    assert!(
        matches!(verdict, RiskVerdict::Rejected { check: RiskCheck::MonthlyDrawdown, .. }),
        "exactly 4.00% monthly loss must be blocked"
    );
}

#[test]
fn test_risk_gate_allows_same_symbol_opposite_side() {
    let gate = RiskGate::new();
    let context = RiskContext::with_positions(d("10000"), vec![PositionSummary {
        position_id: 0,
        symbol: "BTCUSDT".to_string(),
        side: "short".to_string(), // Different side
        notional_value: d("1000"),
        margin_used: d("100"),
        unrealized_pnl: d("0"),
    }]);
    let proposed = sample_proposed(); // BTCUSDT long

    let verdict = gate.evaluate(&proposed, &context);
    assert_eq!(verdict, RiskVerdict::Approved);
}

// =========================================================================
// Daily loss limit tests
// =========================================================================

#[test]
fn test_risk_gate_rejects_daily_loss_limit() {
    let gate = RiskGate::new();
    // Capital = 10_000, daily_loss_limit = 1% → $100
    // Two losses of $60 each = $120 > $100 → must deny
    let context = RiskContext {
        capital: d("10000"),
        open_positions: vec![],
        total_notional_exposure: Dec::zero(),
        monthly_realized_pnl: Dec::zero(),
        monthly_unrealized_pnl: Dec::zero(),
        daily_realized_pnl: d("-120"),
        daily_unrealized_pnl: Dec::zero(),
    };
    let proposed = sample_proposed();

    let verdict = gate.evaluate(&proposed, &context);
    assert!(
        matches!(verdict, RiskVerdict::Rejected { check: RiskCheck::DailyLossLimit, .. }),
        "Daily loss -120 (1.2% of 10_000) must be blocked"
    );
}

#[test]
fn test_risk_gate_allows_within_daily_loss_limit() {
    let gate = RiskGate::new();
    // Capital = 10_000, daily_loss_limit = 1% → $100
    // Two losses of $60 each = $120 > $100 → must deny
    let context = RiskContext {
        capital: d("10000"),
        open_positions: vec![],
        total_notional_exposure: Dec::zero(),
        monthly_realized_pnl: Dec::zero(),
        monthly_unrealized_pnl: Dec::zero(),
        daily_realized_pnl: d("-99"),
        daily_unrealized_pnl: Dec::zero(),
    };
    let proposed = sample_proposed();

    let verdict = gate.evaluate(&proposed, &context);
    assert_eq!(verdict, RiskVerdict::Approved, "Daily loss -99 (0.99%) must be allowed");
}

#[test]
fn test_risk_gate_blocks_at_exactly_1_pct_daily_loss() {
    let gate = RiskGate::new();
    let context = RiskContext {
        capital: d("10000"),
        open_positions: vec![],
        total_notional_exposure: Dec::zero(),
        monthly_realized_pnl: Dec::zero(),
        monthly_unrealized_pnl: Dec::zero(),
        // -100 is exactly 1.00% of 10000 — must be blocked
        daily_realized_pnl: d("-100"),
        daily_unrealized_pnl: Dec::zero(),
    };
    let proposed = sample_proposed();

    let verdict = gate.evaluate(&proposed, &context);
    assert!(
        matches!(verdict, RiskVerdict::Rejected { check: RiskCheck::DailyLossLimit, .. }),
        "exactly 1.00% daily loss must be blocked"
    );
}

#[test]
fn test_risk_gate_daily_loss_includes_unrealized() {
    let gate = RiskGate::new();
    // Capital = 10_000, daily_loss_limit = 1% → $100
    // realized = -60, unrealized = -41 → total -101 > -100 → blocked
    let context = RiskContext {
        capital: d("10000"),
        open_positions: vec![],
        total_notional_exposure: Dec::zero(),
        monthly_realized_pnl: Dec::zero(),
        monthly_unrealized_pnl: Dec::zero(),
        daily_realized_pnl: d("-60"),
        daily_unrealized_pnl: d("-41"),
    };
    let proposed = sample_proposed();

    let verdict = gate.evaluate(&proposed, &context);
    assert!(
        matches!(verdict, RiskVerdict::Rejected { check: RiskCheck::DailyLossLimit, .. }),
        "daily PnL -101 (realized -60 + unrealized -41) must be blocked"
    );
}


#[test]
fn test_risk_context_aggregates() {
    let ctx = RiskContext::with_monthly_and_daily_pnl(
        d("10000"),
        vec![PositionSummary {
            position_id: 0,
            symbol: "ETHUSDT".to_string(),
            side: "long".to_string(),
            notional_value: d("2500"),
            margin_used: d("250"),
            unrealized_pnl: d("-20"),
        }],
        d("-50"),
        d("-30"),
        d("-10"),
        d("-5"),
    );
    assert_eq!(ctx.open_position_count(), 1);
    assert_eq!(ctx.total_notional_exposure, d("2500"));
    assert!(ctx.has_duplicate_position("ETHUSDT", "long"));
    assert!(!ctx.has_duplicate_position("ETHUSDT", "short"));
    assert_eq!(ctx.total_monthly_pnl(), d("-80"));
    assert_eq!(ctx.total_daily_pnl(), d("-15"));
}

#[test]
fn test_risk_check_names_and_custom_limits() {
    assert_eq!(RiskCheck::MaxOpenPositions.name(), "max_open_positions");
    assert_eq!(RiskCheck::DailyLossLimit.name(), "daily_loss_limit");
    let limits = RiskLimits::default();
    assert_eq!(limits.max_open_positions, 3);
    let gate = RiskGate::with_limits(limits);
    assert_eq!(gate.limits().max_open_positions, 3);
}

#[test]
fn test_risk_gate_checked_evaluation() {
    let gate = RiskGate::new();
    let proposed = sample_proposed();
    // Capital far above 2^64 whole units is still evaluated.
    let large = RiskContext::new(d("100000000000000000000000"));
    assert_eq!(gate.evaluate_checked(&proposed, &large), Some(RiskVerdict::Approved));
    assert_eq!(gate.evaluate(&proposed, &large), RiskVerdict::Approved);
    // A capital whose percentage limits overflow cannot be evaluated.
    let overflowing = RiskContext::new(d("79228162514264337593543950335"));
    assert_eq!(gate.evaluate_checked(&proposed, &overflowing), None);
    assert_eq!(gate.evaluate_checked(&proposed, &sample_context()), Some(RiskVerdict::Approved));
}
