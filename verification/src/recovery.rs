//! Decisions of the startup recovery pass, which replays the candles of the
//! time the daemon was down through the engine for each active position
//! (which positions are replayed, which candles count, the replay itself,
//! whether the live price closes the position, and the report), and of the
//! reconciliation of positions and capital with the exchange: the evidence
//! a missing position may be closed on, the committed risk, the capital base
//! after an account change, and the drift alarm. Fetching candles, reading
//! the store and placing orders happen outside the library.

use vstd::prelude::*;

use crate::decimal::{
    lemma_pow10_28, lemma_units_bound, pow10,
    abs_int, addable, decimal_add, decimal_mul, decimal_sub, one_units, safe_units, view_units,
    Dec,
};
use crate::entities::{OrderId, Position, PositionId, PositionState};
use crate::ids::Timestamp;
use crate::market_data::Candle;
use crate::text::{owned, starts_with, usize_text};
use crate::trailing::stop_hit;
use crate::value_objects::{Price, Side, TechnicalStopDistance};
use crate::engine::{active_inputs_ok, price_of, tick_update, Engine, EngineAction, EngineError, MarketData};
use crate::events::Event;

verus! {

// =============================================================================
// Startup recovery
// =============================================================================
/// Minimum gap, in minutes, worth replaying.
pub const MIN_GAP_MINUTES: i64 = 15;

/// Largest number of candles fetched for a gap.
pub const MAX_CANDLES: u16 = 960;

/// Summary of a startup recovery pass.
#[derive(Debug, Clone, Copy, PartialEq, Eq, Default)]
pub struct RecoveryReport {
    /// Positions examined (Active at startup)
    pub positions_scanned: usize,
    /// Positions kept open after recovery
    pub stops_updated: usize,
    /// Positions closed because the live price still violated the stop
    pub positions_closed: usize,
    /// Positions skipped (gap too small, no candles, ...)
    pub positions_skipped: usize,
}

/// How the recovery of one position ended.
#[derive(Debug, Clone, Copy, PartialEq, Eq, Structural)]
pub enum RecoveryOutcome {
    /// Not Active, gap too short, candles unavailable, or no candle in the gap
    Skipped,
    /// The replay closed the position
    Closed,
    /// The replay kept the position open (its stop may have moved)
    KeptOpen,
}

impl RecoveryReport {
    /// Count the outcome of one position.
    pub fn record(&mut self, outcome: RecoveryOutcome)
        requires
            old(self).positions_skipped < usize::MAX,
            old(self).positions_closed < usize::MAX,
            old(self).stops_updated < usize::MAX,
        ensures
            final(self).positions_scanned == old(self).positions_scanned,
            final(self).positions_skipped == old(self).positions_skipped + (if outcome
                == RecoveryOutcome::Skipped {
                1int
            } else {
                0int
            }),
            final(self).positions_closed == old(self).positions_closed + (if outcome
                == RecoveryOutcome::Closed {
                1int
            } else {
                0int
            }),
            final(self).stops_updated == old(self).stops_updated + (if outcome
                == RecoveryOutcome::KeptOpen {
                1int
            } else {
                0int
            }),
    {
        match outcome {
            RecoveryOutcome::Skipped => self.positions_skipped = self.positions_skipped + 1,
            RecoveryOutcome::Closed => self.positions_closed = self.positions_closed + 1,
            RecoveryOutcome::KeptOpen => self.stops_updated = self.stops_updated + 1,
        }
    }

    /// `"scanned=.. updated=.. closed=.. skipped=.."`.
    pub fn display(&self) -> (r: String)
        ensures
            r@ == "scanned="@ + crate::text::decimal_digits(self.positions_scanned as nat)
                + " updated="@ + crate::text::decimal_digits(self.stops_updated as nat)
                + " closed="@ + crate::text::decimal_digits(self.positions_closed as nat)
                + " skipped="@ + crate::text::decimal_digits(self.positions_skipped as nat),
    {
        let mut s = owned("scanned=");
        s.append(usize_text(self.positions_scanned).as_str());
        s.append(" updated=");
        s.append(usize_text(self.stops_updated).as_str());
        s.append(" closed=");
        s.append(usize_text(self.positions_closed).as_str());
        s.append(" skipped=");
        s.append(usize_text(self.positions_skipped).as_str());
        s
    }
}

/// Where the replay of an Active position starts: the later of its last
/// update and its favorable extreme; `None` for a position that is not
/// Active (it is skipped).
pub open spec fn spec_recovery_anchor(position: Position) -> Option<Timestamp> {
    match position.state {
        PositionState::Active { extreme_at, .. } => Some(
            if position.updated_at >= extreme_at {
                position.updated_at
            } else {
                extreme_at
            },
        ),
        _ => None,
    }
}

/// Where the replay of a position starts, if it is Active.
pub fn recovery_anchor(position: &Position) -> (r: Option<Timestamp>)
    ensures
        r == spec_recovery_anchor(*position),
{
    match &position.state {
        PositionState::Active { extreme_at, .. } => Some(
            if position.updated_at >= *extreme_at {
                position.updated_at
            } else {
                *extreme_at
            },
        ),
        _ => None,
    }
}

/// Whole minutes from `anchor` to `now` (truncated toward zero, as
/// `chrono::Duration::num_minutes` counts them).
pub open spec fn minutes_between(anchor: Timestamp, now: Timestamp) -> int {
    let ms = now - anchor;
    let seconds = if ms >= 0 {
        ms / 1000
    } else {
        -((-ms) / 1000)
    };
    if seconds >= 0 {
        seconds / 60
    } else {
        -((-seconds) / 60)
    }
}

/// Whether the gap since `anchor` is long enough to replay (at least 15
/// whole minutes).
pub fn gap_needs_replay(anchor: Timestamp, now: Timestamp) -> (r: bool)
    ensures
        r == (minutes_between(anchor, now) >= 15),
{
    let ms: i128 = now as i128 - anchor as i128;
    let seconds: i128 = if ms >= 0 {
        ms / 1000
    } else {
        -((-ms) / 1000)
    };
    let minutes: i128 = if seconds >= 0 {
        seconds / 60
    } else {
        -((-seconds) / 60)
    };
    minutes >= MIN_GAP_MINUTES as i128
}

/// The candles that opened at or after the anchor, in order.
pub open spec fn spec_gap_candles(candles: Seq<Candle>, anchor: Timestamp) -> Seq<Candle>
    decreases candles.len(),
{
    if candles.len() == 0 {
        Seq::empty()
    } else {
        let prev = spec_gap_candles(candles.drop_last(), anchor);
        if candles.last().open_time >= anchor {
            prev.push(candles.last())
        } else {
            prev
        }
    }
}

/// The candles of the gap: those that opened at or after the anchor.
pub fn gap_candles(candles: &Vec<Candle>, anchor: Timestamp) -> (r: Vec<Candle>)
    ensures
        r@ == spec_gap_candles(candles@, anchor),
{
    let mut out: Vec<Candle> = Vec::new();
    let n = candles.len();
    let mut i: usize = 0;
    while i < n
        invariant
            n == candles@.len(),
            i <= n,
            out@ == spec_gap_candles(candles@.take(i as int), anchor),
        decreases n - i,
    {
        proof {
            assert(candles@.take(i + 1).drop_last() =~= candles@.take(i as int));
        }
        if candles[i].open_time >= anchor {
            out.push(candles[i].clone());
        }
        i = i + 1;
    }
    assert(candles@.take(n as int) =~= candles@);
    out
}

/// The two prices a candle is replayed with, in order: its favorable
/// extreme (high for a Long, low for a Short), then its adverse one.
pub fn replay_prices(side: Side, candle: &Candle) -> (r: (Price, Price))
    ensures
        r == match side {
            Side::Long => (Price(candle.high), Price(candle.low)),
            Side::Short => (Price(candle.low), Price(candle.high)),
        },
{
    match side {
        Side::Long => (Price::from_decimal(candle.high), Price::from_decimal(candle.low)),
        Side::Short => (Price::from_decimal(candle.low), Price::from_decimal(candle.high)),
    }
}

/// Whether the live price still violates the stop after the replay, so the
/// position is closed now.
pub fn should_close_now(side: Side, live_price: Price, trailing_stop: Price) -> (r: bool)
    requires
        live_price.wf(),
        trailing_stop.wf(),
    ensures
        r == stop_hit(side, live_price.units(), trailing_stop.units()),
{
    match side {
        Side::Long => live_price.as_decimal().le(trailing_stop.as_decimal()),
        Side::Short => live_price.as_decimal().ge(trailing_stop.as_decimal()),
    }
}

// =============================================================================
// Reconciliation
// =============================================================================
/// Whether an open order is an insurance stop this system placed: reduce-only
/// with a client order id that starts with `ins-`.
pub fn is_orphan_insurance_order(reduce_only: bool, client_order_id: &str) -> (r: bool)
    ensures
        r == (reduce_only && client_order_id@.len() >= 4 && client_order_id@.subrange(0, 4)
            == "ins-"@),
{
    proof {
        reveal_strlit("ins-");
    }
    reduce_only && starts_with(client_order_id, "ins-")
}

/// Tolerance for financial drift between the ledger and the exchange: 0.01.
pub fn financial_drift_tolerance() -> (r: Dec)
    ensures
        r@ == (1int, 2int),
{
    Dec::new(1, 2)
}

/// `|value|`.
pub fn decimal_abs(value: Dec) -> (r: Dec)
    requires
        value.wf(),
    ensures
        r.units() == abs_int(value.units()),
        r.wf(),
{
    if value.lt(Dec::zero()) {
        value.neg()
    } else {
        value
    }
}

/// Largest `(|entry| + |stop| + 1) × |quantity|`, in whole units, the risk
/// sum is proved for (2^61).
pub open spec fn max_risk_product_whole() -> int {
    2305843009213693952
}

/// The entry and stop the carried risk of a position is measured between:
/// for an Active position its entry and trailing stop, for an Entering one
/// the expected entry and the initial technical stop (or the entry when
/// there is none); no risk for other states, a zero quantity or an Active
/// position without entry.
pub open spec fn risk_bounds(p: Position) -> Option<(Dec, Dec)> {
    if p.quantity.units() == 0 {
        None
    } else {
        match p.state {
            PositionState::Active { trailing_stop, .. } => match p.entry_price {
                Some(e) => Some((e.0, trailing_stop.0)),
                None => None,
            },
            PositionState::Entering { expected_entry, .. } => Some(
                (
                    expected_entry.0,
                    match p.tech_stop_distance {
                        Some(t) => t.initial_stop.0,
                        None => expected_entry.0,
                    },
                ),
            ),
            _ => None,
        }
    }
}

/// The risk a position carries: `(entry - stop) × quantity` for a Long,
/// `(stop - entry) × quantity` for a Short, at least zero.
pub open spec fn carried_risk(p: Position) -> Option<(int, int)> {
    match risk_bounds(p) {
        None => None,
        Some((entry, stop)) => {
            let d = match p.side {
                Side::Long => decimal_sub(entry@, stop@).unwrap(),
                Side::Short => decimal_sub(stop@, entry@).unwrap(),
            };
            let risk = decimal_mul(d, p.quantity.0@).unwrap();
            Some(
                if view_units(risk) > 0 {
                    risk
                } else {
                    (0, 0)
                },
            )
        },
    }
}

/// The carried risks summed in order from zero.
pub open spec fn committed_risk(ps: Seq<Position>) -> (int, int)
    decreases ps.len(),
{
    if ps.len() == 0 {
        (0, 0)
    } else {
        match carried_risk(ps.last()) {
            None => committed_risk(ps.drop_last()),
            Some(r) => decimal_add(committed_risk(ps.drop_last()), r).unwrap(),
        }
    }
}

/// The numbers a position's carried risk is computed with are in range:
/// `|entry| + |stop|` within the decimal range, and `(|entry| + |stop| + 1) ×
/// |quantity|` below 2^61 whole units (so the quantity is bounded only
/// through the prices it is multiplied with).
pub open spec fn risk_inputs_ok(p: Position) -> bool {
    &&& p.quantity.wf()
    &&& match risk_bounds(p) {
        Some((e, s)) => {
            &&& e.wf() && s.wf()
            &&& abs_int(e.units()) + abs_int(s.units()) <= safe_units()
            &&& (abs_int(e.units()) + abs_int(s.units()) + one_units()) * abs_int(p.quantity.units())
                <= max_risk_product_whole() * one_units() * one_units()
        },
        None => true,
    }
}

/// Bound on one carried risk: `2^61 + 2^30 + 1` whole units.
pub open spec fn risk_bound() -> int {
    2305843010361049089 * one_units()
}

/// The carried risk of one position.
fn position_risk(p: &Position) -> (r: Option<Dec>)
    requires
        risk_inputs_ok(*p),
    ensures
        match carried_risk(*p) {
            None => r is None,
            Some(v) => r matches Some(d) && d@ == v && d.wf() && 0 <= d.units() <= risk_bound(),
        },
{
    if p.quantity.as_decimal().is_zero() {
        return None;
    }
    let (entry, stop) = match &p.state {
        PositionState::Active { trailing_stop, .. } => match p.entry_price {
            Some(e) => (e.as_decimal(), trailing_stop.as_decimal()),
            None => return None,
        },
        PositionState::Entering { expected_entry, .. } => {
            let entry = expected_entry.as_decimal();
            let stop = match p.tech_stop_distance {
                Some(t) => t.initial_stop.as_decimal(),
                None => entry,
            };
            (entry, stop)
        },
        _ => return None,
    };
    let d = match p.side {
        Side::Long => entry.checked_sub(stop).unwrap(),
        Side::Short => stop.checked_sub(entry).unwrap(),
    };
    let q = p.quantity.as_decimal();
    proof {
        let a = abs_int(d.units());
        let b = abs_int(q.units());
        let ea = abs_int(entry.units());
        let sa = abs_int(stop.units());
        assert(a * b <= (ea + sa + one_units()) * b) by (nonlinear_arith)
            requires
                0 <= a <= ea + sa + one_units(),
                0 <= b,
        ;
        assert(a * b <= safe_units() * one_units()) by (nonlinear_arith)
            requires
                a * b <= max_risk_product_whole() * one_units() * one_units(),
                max_risk_product_whole() == 2305843009213693952,
                safe_units() == 39614081257132168796771975168 * one_units(),
                one_units() > 0,
        ;
    }
    let risk = d.checked_mul(q).unwrap();
    proof {
        let a = abs_int(d.units());
        let b = abs_int(q.units());
        let c = abs_int(risk.units());
        assert(c <= risk_bound()) by (nonlinear_arith)
            requires
                c * one_units() <= a * b + one_units() * one_units(),
                a * b <= max_risk_product_whole() * one_units() * one_units(),
                max_risk_product_whole() == 2305843009213693952,
                risk_bound() == 2305843010361049089 * one_units(),
                one_units() > 0,
        ;
    }
    let zero = Dec::zero();
    Some(if risk.gt(zero) { risk } else { zero })
}

/// The risk committed across positions: the sum of their carried risks
/// (Active positions from entry to trailing stop, Entering ones from the
/// expected entry to the initial stop).
pub fn calculate_committed_carried_risk(positions: &Vec<Position>) -> (r: Dec)
    requires
        positions@.len() < 4294967296,
        forall|i: int| 0 <= i < positions@.len() ==> risk_inputs_ok(#[trigger] positions@[i]),
    ensures
        r.wf(),
        r@ == committed_risk(positions@),
        r.units() >= 0,
{
    let mut total = Dec::zero();
    let n = positions.len();
    let mut i: usize = 0;
    while i < n
        invariant
            n == positions@.len(),
            n < 4294967296,
            i <= n,
            forall|k: int| 0 <= k < positions@.len() ==> risk_inputs_ok(#[trigger] positions@[k]),
            total.wf(),
            total@ == committed_risk(positions@.take(i as int)),
            0 <= total.units() <= i * (risk_bound() + one_units()),
        decreases n - i,
    {
        proof {
            assert(positions@.take(i + 1).drop_last() =~= positions@.take(i as int));
            assert(positions@.take(i + 1).last() == positions@[i as int]);
        }
        match position_risk(&positions[i]) {
            None => {
                proof {
                    assert(i * (risk_bound() + one_units()) <= (i + 1) * (risk_bound() + one_units()))
                        by (nonlinear_arith)
                        requires
                            risk_bound() + one_units() >= 0,
                    ;
                }
            },
            Some(r) => {
                proof {
                    let t = total.units();
                    assert(t + r.units() <= safe_units()) by (nonlinear_arith)
                        requires
                            0 <= t <= i * (risk_bound() + one_units()),
                            0 <= r.units() <= risk_bound(),
                            i < 4294967296,
                            risk_bound() == 2305843010361049089 * one_units(),
                            safe_units() == 39614081257132168796771975168 * one_units(),
                            one_units() > 0,
                    ;
                }
                let next = total.checked_add(r).unwrap();
                proof {
                    assert(next.units() <= (i + 1) * (risk_bound() + one_units())) by (nonlinear_arith)
                        requires
                            abs_int(next.units()) <= abs_int(total.units()) + abs_int(r.units()) + one_units(),
                            0 <= total.units() <= i * (risk_bound() + one_units()),
                            0 <= r.units() <= risk_bound(),
                    ;
                }
                total = next;
            },
        }
        i = i + 1;
    }
    assert(positions@.take(n as int) =~= positions@);
    total
}


/// Capital-base recalibration after an out-of-band account change (deposit,
/// withdrawal, manual trade): the carried risk is the committed risk plus 1%
/// of the previous base per Armed position; the new base is the wallet
/// balance less the month's governed net result and the carried risk, never
/// below zero. Both as views, in that order.
pub open spec fn spec_recalibration(
    wallet_balance: Dec,
    month_net: Dec,
    committed_risk: Dec,
    previous_capital_base: Dec,
    armed_count: u32,
) -> ((int, int), (int, int)) {
    let armed_risk = decimal_mul(
        decimal_mul(previous_capital_base@, (1, 2)).unwrap(),
        (armed_count as int, 0),
    ).unwrap();
    let carried = decimal_add(committed_risk@, armed_risk).unwrap();
    let base = decimal_sub(decimal_sub(wallet_balance@, month_net@).unwrap(), carried).unwrap();
    (if view_units(base) > 0 {
        base
    } else {
        (0, 0)
    }, carried)
}

/// Why the capital base was recalibrated.
pub open spec fn spec_recalibration_reason() -> Seq<char> {
    seq!['m', 'a', 'n', 'u', 'a', 'l', '_', 'a', 'c', 'c', 'o', 'u', 'n', 't', '_', 'c', 'h', 'a', 'n', 'g', 'e']
}

/// The record of a capital base recalibration after an account change: what
/// the `CapitalBaseRecalibrated` event carries.
#[derive(Debug, Clone, PartialEq)]
pub struct CapitalBaseRecalibration {
    /// The base before the change
    pub previous_capital_base: Dec,
    /// The base after the change
    pub new_capital_base: Dec,
    /// The wallet balance the exchange reported
    pub wallet_balance: Dec,
    /// Risk carried over: open positions plus the Armed slots
    pub carried_risk: Dec,
    /// Always `manual_account_change`
    pub reason: String,
}

/// The amounts of a recalibration are in range: the wallet balance, the
/// month's net, the committed risk and the previous base times the Armed
/// count together stay within a quarter of the decimal range.
pub open spec fn recalibration_in_range(
    wallet_balance: Dec,
    month_net: Dec,
    committed_risk: Dec,
    previous_capital_base: Dec,
    armed_count: u32,
) -> bool {
    abs_int(wallet_balance.units()) + abs_int(month_net.units()) + abs_int(committed_risk.units())
        + abs_int(previous_capital_base.units()) * armed_count <= safe_units() / 2
}

/// The recalibration record (new base and carried risk, with the previous
/// base, the wallet balance and the reason `manual_account_change`), or
/// `None` when the base is unchanged (nothing to record).
pub fn recalibrated_capital_base(
    wallet_balance: Dec,
    month_net: Dec,
    committed_risk: Dec,
    previous_capital_base: Dec,
    armed_count: u32,
) -> (r: Option<CapitalBaseRecalibration>)
    requires
        wallet_balance.wf(),
        month_net.wf(),
        committed_risk.wf(),
        previous_capital_base.wf(),
        recalibration_in_range(wallet_balance, month_net, committed_risk, previous_capital_base, armed_count),
    ensures
        ({
            let (base, carried) = spec_recalibration(
                wallet_balance,
                month_net,
                committed_risk,
                previous_capital_base,
                armed_count,
            );
            &&& r is None <==> view_units(base) == previous_capital_base.units()
            &&& r matches Some(rec) ==> {
                &&& rec.new_capital_base@ == base && rec.new_capital_base.wf()
                &&& rec.carried_risk@ == carried && rec.carried_risk.wf()
                &&& rec.previous_capital_base == previous_capital_base
                &&& rec.wallet_balance == wallet_balance
                &&& rec.reason@ == spec_recalibration_reason()
            }
        }),
{
    let ghost c = one_units();
    let ghost big_s = safe_units();
    let ghost a = abs_int(previous_capital_base.units());
    let ghost n: int = armed_count as int;
    let ghost rest = abs_int(wallet_balance.units()) + abs_int(month_net.units()) + abs_int(committed_risk.units());
    proof {
        lemma_pow10_28();
        lemma_units_bound(previous_capital_base);
    }
    let one_pct = Dec::new(1, 2);
    proof {
        assert(pow10(28) == 10 * pow10(27));
        assert(pow10(27) == 10 * pow10(26));
        assert(one_pct.units() == c / 100);
        assert(a * abs_int(one_pct.units()) <= big_s * c) by (nonlinear_arith)
            requires
                0 <= a <= 79228162514264337593543950335 * c,
                abs_int(one_pct.units()) == c / 100,
                c == 10_000_000_000_000_000_000_000_000_000,
                big_s == 39614081257132168796771975168 * c,
        ;
    }
    let pct_part = previous_capital_base.checked_mul(one_pct).unwrap();
    let count = Dec::from_int(armed_count as i64);
    let ghost p = abs_int(pct_part.units());
    let ghost k = abs_int(count.units());
    proof {
        assert(k == n * c);
        assert(p * 100 <= a + 100 * c) by (nonlinear_arith)
            requires
                p * c <= a * (c / 100) + c * c,
                c == 10_000_000_000_000_000_000_000_000_000,
                0 <= a,
                0 <= p,
        ;
        assert(p * n * 100 <= a * n + 100 * c * n) by (nonlinear_arith)
            requires
                p * 100 <= a + 100 * c,
                0 <= n,
        ;
        assert(p * k <= big_s * c) by (nonlinear_arith)
            requires
                p * n * 100 <= a * n + 100 * c * n,
                a * n <= big_s / 2,
                0 <= n <= 4294967295,
                k == n * c,
                c == 10_000_000_000_000_000_000_000_000_000,
                big_s == 39614081257132168796771975168 * c,
                0 <= p,
        ;
    }
    let armed_risk = pct_part.checked_mul(count).unwrap();
    proof {
        let m = abs_int(armed_risk.units());
        assert(m * 100 <= a * n + 100 * c * n + 100 * c) by (nonlinear_arith)
            requires
                m * c <= p * k + c * c,
                p * n * 100 <= a * n + 100 * c * n,
                k == n * c,
                c > 0,
                0 <= m,
                0 <= p,
                0 <= n,
        ;
        assert(rest + m + 3 * c <= big_s) by (nonlinear_arith)
            requires
                m * 100 <= a * n + 100 * c * n + 100 * c,
                rest + a * n <= big_s / 2,
                0 <= a * n,
                0 <= rest,
                0 <= n <= 4294967295,
                c == 10_000_000_000_000_000_000_000_000_000,
                big_s == 39614081257132168796771975168 * c,
        ;
    }
    let carried = committed_risk.checked_add(armed_risk).unwrap();
    let net = wallet_balance.checked_sub(month_net).unwrap();
    let base = net.checked_sub(carried).unwrap();
    let zero = Dec::zero();
    let new_base = if base.gt(zero) {
        base
    } else {
        zero
    };
    if new_base.eq_value(previous_capital_base) {
        None
    } else {
        let reason = owned("manual_account_change");
        proof {
            reveal_strlit("manual_account_change");
        }
        Some(
            CapitalBaseRecalibration {
                previous_capital_base,
                new_capital_base: new_base,
                wallet_balance,
                carried_risk: carried,
                reason,
            },
        )
    }
}

/// The wallet change that the month's governed results do not explain:
/// `wallet - (previous base + month net)`, as a view.
pub open spec fn spec_unexplained_delta(wallet_balance: Dec, previous_capital_base: Dec, month_net: Dec) -> (
    int,
    int,
) {
    decimal_sub(wallet_balance@, decimal_add(previous_capital_base@, month_net@).unwrap()).unwrap()
}

/// The unexplained wallet delta when it exceeds the drift tolerance (0.01),
/// an alarm for the operator; `None` within the tolerance.
pub fn unexplained_financial_drift(wallet_balance: Dec, previous_capital_base: Dec, month_net: Dec) -> (r:
    Option<Dec>)
    requires
        wallet_balance.wf(),
        previous_capital_base.wf(),
        month_net.wf(),
        abs_int(wallet_balance.units()) + abs_int(previous_capital_base.units()) + abs_int(
            month_net.units(),
        ) <= safe_units() / 2,
    ensures
        ({
            let delta = spec_unexplained_delta(wallet_balance, previous_capital_base, month_net);
            &&& r is None <==> abs_int(view_units(delta)) <= one_units() / 100
            &&& r matches Some(d) ==> d@ == delta
        }),
{
    proof {
        lemma_pow10_28();
        assert(pow10(28) == 10 * pow10(27));
        assert(pow10(27) == 10 * pow10(26));
    }
    let expected = previous_capital_base.checked_add(month_net).unwrap();
    let delta = wallet_balance.checked_sub(expected).unwrap();
    let tolerance = financial_drift_tolerance();
    if decimal_abs(delta).le(tolerance) {
        None
    } else {
        Some(delta)
    }
}

/// The order whose fill may explain a position missing on the exchange: the
/// insurance stop recorded in the Active state, else the one recorded on the
/// position.
pub fn insurance_stop_candidate(position: &Position) -> (r: Option<OrderId>)
    ensures
        r == match position.state {
            PositionState::Active { insurance_stop_id, .. } => match insurance_stop_id {
                Some(id) => Some(id),
                None => position.insurance_stop_id,
            },
            _ => position.insurance_stop_id,
        },
{
    match &position.state {
        PositionState::Active { insurance_stop_id, .. } => match insurance_stop_id {
            Some(id) => Some(*id),
            None => position.insurance_stop_id,
        },
        _ => position.insurance_stop_id,
    }
}

/// A trade that may be the close of a missing position: filled at or after
/// the time the position was first seen missing, for exactly the expected
/// quantity.
pub open spec fn trade_compatible(fill: (Timestamp, Dec), floor: Timestamp, expected_quantity: Dec) -> bool {
    fill.0 >= floor && fill.1.units() == expected_quantity.units()
}

/// The index of the one trade (fill time, quantity) compatible with a missing
/// position; `None` when no trade or more than one is compatible (the close
/// stays unresolved).
pub fn unique_compatible_trade(fills: &Vec<(Timestamp, Dec)>, floor: Timestamp, expected_quantity: Dec) -> (r:
    Option<usize>)
    requires
        expected_quantity.wf(),
        forall|i: int| 0 <= i < fills@.len() ==> (#[trigger] fills@[i]).1.wf(),
    ensures
        r matches Some(i) ==> i < fills@.len() && trade_compatible(fills@[i as int], floor, expected_quantity)
            && forall|j: int|
            0 <= j < fills@.len() && j != i ==> !trade_compatible(
                #[trigger] fills@[j],
                floor,
                expected_quantity,
            ),
        r is None ==> (forall|j: int|
            0 <= j < fills@.len() ==> !trade_compatible(#[trigger] fills@[j], floor, expected_quantity))
            || exists|a: int, b: int|
            0 <= a < b < fills@.len() && trade_compatible(#[trigger] fills@[a], floor, expected_quantity)
                && trade_compatible(#[trigger] fills@[b], floor, expected_quantity),
{
    let mut found: Option<usize> = None;
    let n = fills.len();
    let mut i: usize = 0;
    while i < n
        invariant
            n == fills@.len(),
            i <= n,
            forall|k: int| 0 <= k < fills@.len() ==> (#[trigger] fills@[k]).1.wf(),
            expected_quantity.wf(),
            match found {
                Some(f) => f < i && trade_compatible(fills@[f as int], floor, expected_quantity)
                    && forall|j: int|
                    0 <= j < i && j != f ==> !trade_compatible(
                        #[trigger] fills@[j],
                        floor,
                        expected_quantity,
                    ),
                None => forall|j: int|
                    0 <= j < i ==> !trade_compatible(#[trigger] fills@[j], floor, expected_quantity),
            },
        decreases n - i,
    {
        let (at, qty) = fills[i];
        if at >= floor && qty.eq_value(expected_quantity) {
            match found {
                Some(f) => {
                    proof {
                        assert(trade_compatible(fills@[f as int], floor, expected_quantity));
                        assert(trade_compatible(fills@[i as int], floor, expected_quantity));
                    }
                    return None;
                },
                None => {
                    found = Some(i);
                },
            }
        }
        i = i + 1;
    }
    found
}

/// How many of the outcomes are `kind`.
pub open spec fn count_outcome(outcomes: Seq<RecoveryOutcome>, kind: RecoveryOutcome) -> nat
    decreases outcomes.len(),
{
    if outcomes.len() == 0 {
        0
    } else {
        count_outcome(outcomes.drop_last(), kind) + (if outcomes.last() == kind {
            1nat
        } else {
            0nat
        })
    }
}

/// Every outcome is one of the three kinds.
proof fn lemma_outcomes_partition(outcomes: Seq<RecoveryOutcome>)
    ensures
        count_outcome(outcomes, RecoveryOutcome::Skipped) + count_outcome(outcomes, RecoveryOutcome::Closed)
            + count_outcome(outcomes, RecoveryOutcome::KeptOpen) == outcomes.len(),
    decreases outcomes.len(),
{
    if outcomes.len() > 0 {
        lemma_outcomes_partition(outcomes.drop_last());
    }
}

/// Each count is at most the number of outcomes.
proof fn lemma_count_bounded(outcomes: Seq<RecoveryOutcome>, kind: RecoveryOutcome)
    ensures
        count_outcome(outcomes, kind) <= outcomes.len(),
    decreases outcomes.len(),
{
    if outcomes.len() > 0 {
        lemma_count_bounded(outcomes.drop_last(), kind);
    }
}

/// The report of a recovery pass over the Active positions found at start,
/// one outcome per position in order: every position is counted once, as
/// closed, kept open or skipped; with no position the report is empty.
pub fn report_of(outcomes: &Vec<RecoveryOutcome>) -> (r: RecoveryReport)
    ensures
        r.positions_scanned == outcomes@.len(),
        r.positions_skipped == count_outcome(outcomes@, RecoveryOutcome::Skipped),
        r.positions_closed == count_outcome(outcomes@, RecoveryOutcome::Closed),
        r.stops_updated == count_outcome(outcomes@, RecoveryOutcome::KeptOpen),
        r.positions_scanned == r.positions_closed + r.stops_updated + r.positions_skipped,
        outcomes@.len() == 0 ==> r == (RecoveryReport {
            positions_scanned: 0,
            stops_updated: 0,
            positions_closed: 0,
            positions_skipped: 0,
        }),
{
    let n = outcomes.len();
    let mut report = RecoveryReport {
        positions_scanned: n,
        stops_updated: 0,
        positions_closed: 0,
        positions_skipped: 0,
    };
    let mut i: usize = 0;
    while i < n
        invariant
            n == outcomes@.len(),
            i <= n,
            report.positions_scanned == n,
            report.positions_skipped == count_outcome(outcomes@.take(i as int), RecoveryOutcome::Skipped),
            report.positions_closed == count_outcome(outcomes@.take(i as int), RecoveryOutcome::Closed),
            report.stops_updated == count_outcome(outcomes@.take(i as int), RecoveryOutcome::KeptOpen),
        decreases n - i,
    {
        proof {
            assert(outcomes@.take(i + 1).drop_last() =~= outcomes@.take(i as int));
            lemma_count_bounded(outcomes@.take(i as int), RecoveryOutcome::Skipped);
            lemma_count_bounded(outcomes@.take(i as int), RecoveryOutcome::Closed);
            lemma_count_bounded(outcomes@.take(i as int), RecoveryOutcome::KeptOpen);
        }
        report.record(outcomes[i]);
        i = i + 1;
    }
    proof {
        assert(outcomes@.take(n as int) =~= outcomes@);
        lemma_outcomes_partition(outcomes@);
    }
    report
}

/// What startup recovery does with a position found at start: `None` to
/// skip it (not Active, or less than 15 minutes since its anchor); else its
/// trailing stop and the anchor from which candles are replayed.
pub fn recovery_plan(position: &Position, now: Timestamp) -> (r: Option<(Price, Timestamp)>)
    ensures
        r == match position.state {
            PositionState::Active { trailing_stop, .. } => {
                let anchor = spec_recovery_anchor(*position)->0;
                if minutes_between(anchor, now) >= 15 {
                    Some((trailing_stop, anchor))
                } else {
                    None
                }
            },
            _ => None,
        },
{
    match recovery_anchor(position) {
        None => None,
        Some(anchor) => {
            if gap_needs_replay(anchor, now) {
                match &position.state {
                    PositionState::Active { trailing_stop, .. } => Some((*trailing_stop, anchor)),
                    _ => None,
                }
            } else {
                None
            }
        },
    }
}

// =============================================================================
// Gap replay
// =============================================================================
/// The prices of an Active position that a replay moves: current price,
/// trailing stop, favorable extreme and last emitted stop.
pub type ReplayPrices = (Price, Price, Price, Option<Price>);

/// The replay prices of a position, if it is Active.
pub open spec fn replay_start(position: Position) -> ReplayPrices {
    match position.state {
        PositionState::Active { current_price, trailing_stop, favorable_extreme, last_emitted_stop, .. } => (
            current_price,
            trailing_stop,
            favorable_extreme,
            last_emitted_stop,
        ),
        _ => arbitrary(),
    }
}

/// One replayed tick at `price`, with no exit materialised: a hit stop only
/// raises the flag; a stop update moves the prices; else nothing changes.
pub open spec fn replay_tick(side: Side, t: TechnicalStopDistance, s: ReplayPrices, price: Price) -> (
    ReplayPrices,
    bool,
) {
    if stop_hit(side, price.units(), s.1.units()) {
        (s, true)
    } else if let Some(v) = tick_update(side, price, s.1, s.2, t, s.3) {
        ((price, price_of(v), price, Some(price_of(v))), false)
    } else {
        (s, false)
    }
}

/// The ticks of a gap, in order: each candle's favorable extreme, then its
/// adverse one.
pub open spec fn gap_prices(side: Side, gap: Seq<Candle>) -> Seq<Price>
    decreases gap.len(),
{
    if gap.len() == 0 {
        Seq::empty()
    } else {
        let c = gap.last();
        let (f, a) = match side {
            Side::Long => (Price(c.high), Price(c.low)),
            Side::Short => (Price(c.low), Price(c.high)),
        };
        gap_prices(side, gap.drop_last()).push(f).push(a)
    }
}

/// The stop update a replayed tick makes, if any: the previous stop, the
/// new stop and the price that moved it.
pub open spec fn tick_record(side: Side, t: TechnicalStopDistance, s: ReplayPrices, price: Price) -> Option<
    (Price, Price, Price),
> {
    if stop_hit(side, price.units(), s.1.units()) {
        None
    } else if let Some(v) = tick_update(side, price, s.1, s.2, t, s.3) {
        Some((s.1, price_of(v), price))
    } else {
        None
    }
}

/// `e` is the `TrailingStopUpdated` event of position `id` for update `u`.
pub open spec fn records_update(id: PositionId, u: (Price, Price, Price), e: Event) -> bool {
    e matches Event::TrailingStopUpdated { position_id, previous_stop, new_stop, trigger_price, .. }
        && position_id == id && previous_stop == u.0 && new_stop == u.1 && trigger_price == u.2
}

/// `events` are the `TrailingStopUpdated` events of position `id` for the
/// updates, one each, in order.
pub open spec fn records_updates(id: PositionId, ups: Seq<(Price, Price, Price)>, events: Seq<Event>) -> bool {
    &&& events.len() == ups.len()
    &&& forall|k: int| 0 <= k < ups.len() ==> records_update(id, #[trigger] ups[k], events[k])
}

/// The stop updates of a replay, in order.
pub open spec fn replay_updates(side: Side, t: TechnicalStopDistance, s: ReplayPrices, prices: Seq<Price>) -> Seq<
    (Price, Price, Price),
>
    decreases prices.len(),
{
    if prices.len() == 0 {
        Seq::empty()
    } else {
        let before = replay_updates(side, t, s, prices.drop_last());
        let s1 = replay_fold(side, t, s, prices.drop_last()).0;
        match tick_record(side, t, s1, prices.last()) {
            Some(u) => before.push(u),
            None => before,
        }
    }
}

/// The replay of the ticks in order from `s`: the prices at the end, and
/// whether any tick hit the stop.
pub open spec fn replay_fold(side: Side, t: TechnicalStopDistance, s: ReplayPrices, prices: Seq<Price>) -> (
    ReplayPrices,
    bool,
)
    decreases prices.len(),
{
    if prices.len() == 0 {
        (s, false)
    } else {
        let (s1, f1) = replay_fold(side, t, s, prices.drop_last());
        let (s2, f2) = replay_tick(side, t, s1, prices.last());
        (s2, f1 || f2)
    }
}

/// `p` is `position` with its replay prices set to `s`; the time of the
/// extreme and the update time are the clock's.
pub open spec fn replayed(position: Position, s: ReplayPrices, p: Position) -> bool {
    match (position.state, p.state) {
        (
            PositionState::Active { insurance_stop_id, .. },
            PositionState::Active { extreme_at, .. },
        ) => p == (Position {
            state: PositionState::Active {
                current_price: s.0,
                trailing_stop: s.1,
                favorable_extreme: s.2,
                extreme_at,
                insurance_stop_id,
                last_emitted_stop: s.3,
            },
            updated_at: p.updated_at,
            ..position
        }),
        _ => false,
    }
}

/// A replayed position starts the next tick from the prices it was set to,
/// and keeps the position's side and technical stop.
proof fn lemma_replayed_start(position: Position, s: ReplayPrices, p: Position)
    requires
        replayed(position, s, p),
    ensures
        replay_start(p) == s,
        p.id == position.id,
        p.side == position.side,
        p.tech_stop_distance == position.tech_stop_distance,
        p.state is Active,
{
}

/// Replaying further from a replayed position is a replay of the original.
proof fn lemma_replayed_chain(position: Position, s1: ReplayPrices, c1: Position, s2: ReplayPrices, c2: Position)
    requires
        replayed(position, s1, c1),
        replayed(c1, s2, c2),
    ensures
        replayed(position, s2, c2),
{
}

/// The numbers of a replay are in range: the position's prices, and both
/// extremes of every candle against the technical stop distance.
pub open spec fn replay_inputs_ok(position: Position, gap: Seq<Candle>) -> bool {
    &&& match position.state {
        PositionState::Active { trailing_stop, favorable_extreme, last_emitted_stop, .. } => {
            &&& trailing_stop.wf()
            &&& favorable_extreme.wf()
            &&& (last_emitted_stop matches Some(p) ==> p.wf())
        },
        _ => true,
    }
    &&& forall|i: int| 0 <= i < gap.len() ==> gap[i].high.wf() && gap[i].low.wf()
    &&& (position.tech_stop_distance matches Some(t) ==> {
        &&& t.wf()
        &&& forall|i: int|
            0 <= i < gap.len() ==> addable(gap[i].high, t.distance) && addable(gap[i].low, t.distance)
    })
}

/// Whether an action exits the position.
pub open spec fn is_exit_action(a: EngineAction) -> bool {
    ||| a is TriggerExit
    ||| a is PlaceExitOrder
    ||| a matches EngineAction::EmitEvent(Event::ExitTriggered { .. })
}

/// Whether any of the actions exits the position.
fn has_exit_action(actions: &Vec<EngineAction>) -> (r: bool)
    ensures
        r == exists|i: int| 0 <= i < actions@.len() && is_exit_action(actions@[i]),
{
    let mut i: usize = 0;
    while i < actions.len()
        invariant
            i <= actions@.len(),
            forall|j: int| 0 <= j < i ==> !is_exit_action(#[trigger] actions@[j]),
        decreases actions@.len() - i,
    {
        let hit = match &actions[i] {
            EngineAction::TriggerExit { .. } => true,
            EngineAction::PlaceExitOrder { .. } => true,
            EngineAction::EmitEvent(Event::ExitTriggered { .. }) => true,
            _ => false,
        };
        if hit {
            return true;
        }
        i = i + 1;
    }
    false
}

/// The Active prices of a position are well formed.
pub open spec fn active_prices_wf(position: Position) -> bool {
    match position.state {
        PositionState::Active { trailing_stop, favorable_extreme, last_emitted_stop, .. } => {
            &&& trailing_stop.wf()
            &&& favorable_extreme.wf()
            &&& (last_emitted_stop matches Some(p) ==> p.wf())
        },
        _ => false,
    }
}

/// One replayed tick of an Active position at `price`, stamped `at`: the
/// engine decides, a stop update is applied, an exit is only reported.
fn replay_step(engine: &Engine, current: Position, price: Price, at: Timestamp) -> (r: (
    Position,
    bool,
    Option<Event>,
))
    requires
        current.state is Active,
        current.tech_stop_distance is Some,
        active_prices_wf(current),
        active_inputs_ok(current, price),
    ensures
        ({
            let t = current.tech_stop_distance.unwrap();
            let (s, f) = replay_tick(current.side, t, replay_start(current), price);
            &&& replayed(current, s, r.0) && r.1 == f
            &&& match tick_record(current.side, t, replay_start(current), price) {
                None => r.2 is None,
                Some(u) => r.2 matches Some(e) && records_update(current.id, u, e),
            }
        }),
        active_prices_wf(r.0),
{
    let md = MarketData::with_timestamp(current.symbol.clone(), price, at);
    let d = match engine.process_active_position(&current, &md) {
        Ok(d) => d,
        Err(_) => {
            return (current, false, None);
        },
    };
    let exit = has_exit_action(&d.actions);
    proof {
        let t = current.tech_stop_distance.unwrap();
        let s = replay_start(current);
        if stop_hit(current.side, price.units(), s.1.units()) {
            assert(is_exit_action(d.actions@[0]));
        } else if tick_update(current.side, price, s.1, s.2, t, s.3) is Some {
            assert(!is_exit_action(d.actions@[0]));
            assert(!is_exit_action(d.actions@[1]));
        }
    }
    if exit {
        return (current, true, None);
    }
    let mut actions = d.actions;
    let ghost all = actions@;
    let event = if actions.len() == 2 {
        match actions.pop() {
            Some(EngineAction::EmitEvent(e)) => Some(e),
            _ => None,
        }
    } else {
        None
    };
    proof {
        if actions@.len() + 1 == all.len() {
            assert(all[1] == all.last());
        }
    }
    match d.updated_position {
        Some(p) => (p, false, event),
        None => (current, false, event),
    }
}

/// Replay the candles of a gap through the engine for an Active position:
/// each candle's favorable extreme, then its adverse one, stamped with its
/// close time. Stop updates are applied; an exit is never materialised, only
/// reported by the flag (whether any tick hit the stop). The engine's error
/// is returned when it refuses the position.
pub fn replay_gap(engine: &Engine, position: &Position, gap: &Vec<Candle>) -> (r: Result<
    (Position, bool, Vec<Event>),
    EngineError,
>)
    requires
        replay_inputs_ok(*position, gap@),
    ensures
        r is Err <==> gap@.len() > 0 && !(position.state is Active
            && position.tech_stop_distance is Some),
        r matches Err(e) ==> (!(position.state is Active) ==> e is InvalidPositionState),
        r matches Err(e) ==> (position.state is Active ==> (e matches EngineError::MissingData(m)
            && m@ == "Position missing tech_stop_distance"@)),
        gap@.len() == 0 ==> (r matches Ok((p, crossed, events)) && p == *position && !crossed
            && events@.len() == 0),
        r is Ok && gap@.len() > 0 ==> ({
            let t = position.tech_stop_distance.unwrap();
            let prices = gap_prices(position.side, gap@);
            let (s, f) = replay_fold(position.side, t, replay_start(*position), prices);
            &&& replayed(*position, s, r->Ok_0.0) && r->Ok_0.1 == f
            &&& records_updates(
                position.id,
                replay_updates(position.side, t, replay_start(*position), prices),
                r->Ok_0.2@,
            )
        }),
{
    let n = gap.len();
    if n == 0 {
        return Ok((position.clone(), false, Vec::new()));
    }
    let side = position.side;
    let ready = match (&position.state, &position.tech_stop_distance) {
        (PositionState::Active { .. }, Some(_)) => true,
        _ => false,
    };
    if !ready {
        let (first, _) = replay_prices(side, &gap[0]);
        proof {
            assert(gap@[0].high.wf() && gap@[0].low.wf());
            if position.tech_stop_distance is Some {
                assert(addable(gap@[0].high, position.tech_stop_distance.unwrap().distance));
                assert(addable(gap@[0].low, position.tech_stop_distance.unwrap().distance));
            }
        }
        let md = MarketData::with_timestamp(position.symbol.clone(), first, gap[0].close_time);
        return match engine.process_active_position(position, &md) {
            Err(e) => Err(e),
            Ok(_) => Ok((position.clone(), false, Vec::new())),
        };
    }
    let ghost t = position.tech_stop_distance.unwrap();
    let mut current = position.clone();
    let mut crossed = false;
    let mut events: Vec<Event> = Vec::new();
    let mut i: usize = 0;
    proof {
        assert(gap@.take(0) =~= Seq::<Candle>::empty());
        assert(replayed(*position, replay_start(*position), current));
    }
    while i < n
        invariant
            n == gap@.len(),
            i <= n,
            side == position.side,
            position.state is Active,
            position.tech_stop_distance == Some(t),
            replay_inputs_ok(*position, gap@),
            active_prices_wf(current),
            replayed(
                *position,
                replay_fold(side, t, replay_start(*position), gap_prices(side, gap@.take(i as int))).0,
                current,
            ),
            crossed == replay_fold(side, t, replay_start(*position), gap_prices(side, gap@.take(i as int))).1,
            records_updates(
                position.id,
                replay_updates(side, t, replay_start(*position), gap_prices(side, gap@.take(i as int))),
                events@,
            ),
        decreases n - i,
    {
        let ghost before = gap_prices(side, gap@.take(i as int));
        let (fav, adv) = replay_prices(side, &gap[i]);
        let at = gap[i].close_time;
        proof {
            assert(gap@[i as int].high.wf() && gap@[i as int].low.wf());
            assert(addable(gap@[i as int].high, t.distance) && addable(gap@[i as int].low, t.distance));
        }
        let ghost ev0 = events@;
        let (c1, f1, e1) = replay_step(engine, current, fav, at);
        match e1 {
            Some(e) => events.push(e),
            None => {},
        }
        let ghost ev1 = events@;
        let (c2, f2, e2) = replay_step(engine, c1, adv, at);
        match e2 {
            Some(e) => events.push(e),
            None => {},
        }
        proof {
            assert(gap@.take(i + 1).drop_last() =~= gap@.take(i as int));
            let after = gap_prices(side, gap@.take(i + 1));
            assert(after =~= before.push(fav).push(adv));
            assert(after.drop_last() =~= before.push(fav));
            assert(before.push(fav).drop_last() =~= before);
            let s0 = replay_fold(side, t, replay_start(*position), before);
            lemma_replayed_start(*position, s0.0, current);
            let mid = replay_tick(side, t, s0.0, fav);
            assert(replay_fold(side, t, replay_start(*position), before.push(fav)) == (mid.0, s0.1 || mid.1));
            lemma_replayed_chain(*position, s0.0, current, mid.0, c1);
            lemma_replayed_start(*position, mid.0, c1);
            let end = replay_tick(side, t, mid.0, adv);
            assert(replay_fold(side, t, replay_start(*position), after) == (end.0, (s0.1 || mid.1) || end.1));
            lemma_replayed_chain(*position, mid.0, c1, end.0, c2);
            let st = replay_start(*position);
            let u0 = replay_updates(side, t, st, before);
            let u1 = replay_updates(side, t, st, before.push(fav));
            let u2 = replay_updates(side, t, st, after);
            assert(u1 == match tick_record(side, t, s0.0, fav) {
                Some(u) => u0.push(u),
                None => u0,
            });
            assert(u2 == match tick_record(side, t, mid.0, adv) {
                Some(u) => u1.push(u),
                None => u1,
            });
            assert(records_updates(position.id, u1, ev1)) by {
                if tick_record(side, t, s0.0, fav) is Some {
                    assert forall|k: int| 0 <= k < u1.len() implies records_update(position.id, #[trigger] u1[k], ev1[k]) by {
                        if k < u0.len() {
                            assert(u1[k] == u0[k]);
                            assert(ev1[k] == ev0[k]);
                        }
                    }
                }
            }
            assert(records_updates(position.id, u2, events@)) by {
                if tick_record(side, t, mid.0, adv) is Some {
                    assert forall|k: int| 0 <= k < u2.len() implies records_update(position.id, #[trigger] u2[k], events@[k]) by {
                        if k < u1.len() {
                            assert(u2[k] == u1[k]);
                            assert(events@[k] == ev1[k]);
                        }
                    }
                }
            }
        }
        current = c2;
        crossed = crossed || f1 || f2;
        i = i + 1;
    }
    proof {
        assert(gap@.take(n as int) =~= gap@);
    }
    Ok((current, crossed, events))
}

} // verus!
