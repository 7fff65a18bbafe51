//! The risk gate: pre-trade approval checks against portfolio-level limits.
//!
//! Given the current portfolio state, should this trade be allowed? The
//! checks run in a fixed order and the first one that fails rejects the
//! trade: maximum open positions, total exposure, single position
//! concentration, duplicate symbol and side, monthly drawdown, daily loss.
//! Pure computation, no I/O.

use vstd::prelude::*;

use crate::decimal::{
    abs_int, addable, decimal_add, decimal_mul, decimal_text, one_units, safe_units, view_units, Dec,
};
use crate::ids::Uuid;
use crate::text::{decimal_digits, owned, str_eq, usize_text};
use crate::value_objects::{percent_of_representable, spec_percent_of};

verus! {

// =============================================================================
// Risk limits
// =============================================================================
/// Portfolio-level risk limits (configured at startup, static).
#[derive(Debug, Clone, Copy, PartialEq)]
pub struct RiskLimits {
    /// Maximum number of simultaneous open positions (default 3)
    pub max_open_positions: usize,
    /// Maximum total notional exposure as percentage of capital (default 30)
    pub max_total_exposure_pct: Dec,
    /// Maximum single position size as percentage of capital (default 15)
    pub max_single_position_pct: Dec,
    /// Monthly drawdown limit as percentage of capital (4: MonthlyHalt)
    pub max_monthly_drawdown_pct: Dec,
    /// Daily loss limit as percentage of capital (default 1)
    pub daily_loss_limit_pct: Dec,
}

impl Default for RiskLimits {
    /// 3 positions, 30% total exposure, 15% single position, 4% monthly
    /// drawdown, 1% daily loss.
    fn default() -> (r: RiskLimits)
        ensures
            r.max_open_positions == 3,
            r.max_total_exposure_pct@ == (30int, 0int),
            r.max_single_position_pct@ == (15int, 0int),
            r.max_monthly_drawdown_pct@ == (4int, 0int),
            r.daily_loss_limit_pct@ == (1int, 0int),
    {
        RiskLimits {
            max_open_positions: 3,
            max_total_exposure_pct: Dec::from_int(30),
            max_single_position_pct: Dec::from_int(15),
            max_monthly_drawdown_pct: Dec::from_int(4),
            daily_loss_limit_pct: Dec::one(),
        }
    }
}

impl RiskLimits {
    /// Custom limits; the monthly drawdown stays at 4% and the daily loss
    /// limit at 1%.
    pub fn new(
        max_open_positions: usize,
        max_total_exposure_pct: Dec,
        max_single_position_pct: Dec,
    ) -> (r: RiskLimits)
        ensures
            r.max_open_positions == max_open_positions,
            r.max_total_exposure_pct == max_total_exposure_pct,
            r.max_single_position_pct == max_single_position_pct,
            r.max_monthly_drawdown_pct@ == (4int, 0int),
            r.daily_loss_limit_pct@ == (1int, 0int),
    {
        RiskLimits {
            max_open_positions,
            max_total_exposure_pct,
            max_single_position_pct,
            max_monthly_drawdown_pct: Dec::from_int(4),
            daily_loss_limit_pct: Dec::one(),
        }
    }
}

// =============================================================================
// Risk context
// =============================================================================
/// Minimal position info needed for risk checks.
#[derive(Debug, Clone, PartialEq)]
pub struct PositionSummary {
    /// Position identifier
    pub position_id: Uuid,
    /// Trading pair symbol
    pub symbol: String,
    /// Position direction
    pub side: String,
    /// Notional value (quantity × price)
    pub notional_value: Dec,
    /// Margin used
    pub margin_used: Dec,
    /// Unrealized PnL
    pub unrealized_pnl: Dec,
}

/// The sum of the notional values, added from the first to the last
/// starting at zero, as `rust_decimal` adds them.
pub open spec fn notional_sum(s: Seq<PositionSummary>) -> Option<(int, int)>
    decreases s.len(),
{
    if s.len() == 0 {
        Some((0, 0))
    } else {
        match notional_sum(s.drop_last()) {
            Some(t) => decimal_add(t, s.last().notional_value@),
            None => None,
        }
    }
}

/// The sum of the magnitudes of the notional values.
pub open spec fn notional_magnitude(s: Seq<PositionSummary>) -> int
    decreases s.len(),
{
    if s.len() == 0 {
        0
    } else {
        notional_magnitude(s.drop_last()) + abs_int(s.last().notional_value.units())
    }
}

/// The notional values are in range and small enough to be summed without
/// overflow: their magnitudes, plus one whole unit per position, stay within
/// `2^95` whole units.
pub open spec fn notionals_summable(s: Seq<PositionSummary>) -> bool {
    &&& forall|i: int| 0 <= i < s.len() ==> (#[trigger] s[i]).notional_value.wf()
    &&& notional_magnitude(s) + s.len() * one_units() <= safe_units()
}

/// Whether some position has the symbol and side.
pub open spec fn has_duplicate(s: Seq<PositionSummary>, symbol: Seq<char>, side: Seq<char>) -> bool {
    exists|i: int| 0 <= i < s.len() && (#[trigger] s[i]).symbol@ == symbol && s[i].side@ == side
}

proof fn lemma_magnitude_prefix(s: Seq<PositionSummary>, i: int)
    requires
        0 <= i <= s.len(),
    ensures
        notional_magnitude(s.take(i)) <= notional_magnitude(s),
    decreases s.len() - i,
{
    if i < s.len() {
        lemma_magnitude_prefix(s, i + 1);
        assert(s.take(i + 1).drop_last() =~= s.take(i));
    } else {
        assert(s.take(i) =~= s);
    }
}

/// The total notional exposure of the positions.
fn total_notional(positions: &Vec<PositionSummary>) -> (r: Dec)
    requires
        notionals_summable(positions@),
    ensures
        r.wf(),
        notional_sum(positions@) == Some(r@),
        abs_int(r.units()) <= notional_magnitude(positions@) + positions@.len() * one_units(),
{
    let mut total = Dec::zero();
    let n = positions.len();
    let mut i: usize = 0;
    assert(positions@.take(0) =~= Seq::<PositionSummary>::empty());
    while i < n
        invariant
            n == positions@.len(),
            i <= n,
            notionals_summable(positions@),
            total.wf(),
            notional_sum(positions@.take(i as int)) == Some(total@),
            abs_int(total.units()) <= notional_magnitude(positions@.take(i as int)) + i
                * one_units(),
        decreases n - i,
    {
        let x = positions[i].notional_value;
        proof {
            let s = positions@;
            assert(s.take(i + 1).drop_last() =~= s.take(i as int));
            assert(s.take(i + 1).last() == s[i as int]);
            lemma_magnitude_prefix(s, i + 1);
            assert(abs_int(abs_int(x.units())) == abs_int(x.units()));
        }
        total = total.checked_add(x).unwrap();
        i = i + 1;
    }
    assert(positions@.take(n as int) =~= positions@);
    total
}

/// Snapshot of the portfolio's risk state, built by the caller before
/// calling the risk evaluation.
#[derive(Debug, Clone, PartialEq)]
pub struct RiskContext {
    /// Current available capital
    pub capital: Dec,
    /// Currently open positions
    pub open_positions: Vec<PositionSummary>,
    /// Total notional exposure across all positions
    pub total_notional_exposure: Dec,
    /// Monthly realized PnL (halt at -4%)
    pub monthly_realized_pnl: Dec,
    /// Monthly unrealized PnL
    pub monthly_unrealized_pnl: Dec,
    /// Daily realized PnL (reset at UTC midnight)
    pub daily_realized_pnl: Dec,
    /// Daily unrealized PnL
    pub daily_unrealized_pnl: Dec,
}

impl RiskContext {
    /// An empty context with just capital.
    pub fn new(capital: Dec) -> (r: RiskContext)
        ensures
            r.capital == capital,
            r.open_positions@.len() == 0,
            r.total_notional_exposure@ == (0int, 0int),
            r.monthly_realized_pnl@ == (0int, 0int),
            r.monthly_unrealized_pnl@ == (0int, 0int),
            r.daily_realized_pnl@ == (0int, 0int),
            r.daily_unrealized_pnl@ == (0int, 0int),
    {
        RiskContext {
            capital,
            open_positions: Vec::new(),
            total_notional_exposure: Dec::zero(),
            monthly_realized_pnl: Dec::zero(),
            monthly_unrealized_pnl: Dec::zero(),
            daily_realized_pnl: Dec::zero(),
            daily_unrealized_pnl: Dec::zero(),
        }
    }

    /// A context with positions; the total exposure is the sum of their
    /// notional values.
    pub fn with_positions(capital: Dec, open_positions: Vec<PositionSummary>) -> (r: RiskContext)
        requires
            notionals_summable(open_positions@),
        ensures
            r.capital == capital,
            r.open_positions@ == open_positions@,
            notional_sum(open_positions@) == Some(r.total_notional_exposure@),
            r.total_notional_exposure.wf(),
            abs_int(r.total_notional_exposure.units()) <= notional_magnitude(open_positions@)
                + open_positions@.len() * one_units(),
            r.monthly_realized_pnl@ == (0int, 0int),
            r.monthly_unrealized_pnl@ == (0int, 0int),
            r.daily_realized_pnl@ == (0int, 0int),
            r.daily_unrealized_pnl@ == (0int, 0int),
    {
        let total_notional_exposure = total_notional(&open_positions);
        RiskContext {
            capital,
            open_positions,
            total_notional_exposure,
            monthly_realized_pnl: Dec::zero(),
            monthly_unrealized_pnl: Dec::zero(),
            daily_realized_pnl: Dec::zero(),
            daily_unrealized_pnl: Dec::zero(),
        }
    }

    /// A context with positions and monthly P&L.
    pub fn with_monthly_pnl(
        capital: Dec,
        open_positions: Vec<PositionSummary>,
        monthly_realized_pnl: Dec,
        monthly_unrealized_pnl: Dec,
    ) -> (r: RiskContext)
        requires
            notionals_summable(open_positions@),
        ensures
            r.capital == capital,
            r.open_positions@ == open_positions@,
            notional_sum(open_positions@) == Some(r.total_notional_exposure@),
            r.total_notional_exposure.wf(),
            abs_int(r.total_notional_exposure.units()) <= notional_magnitude(open_positions@)
                + open_positions@.len() * one_units(),
            r.monthly_realized_pnl == monthly_realized_pnl,
            r.monthly_unrealized_pnl == monthly_unrealized_pnl,
            r.daily_realized_pnl@ == (0int, 0int),
            r.daily_unrealized_pnl@ == (0int, 0int),
    {
        let total_notional_exposure = total_notional(&open_positions);
        RiskContext {
            capital,
            open_positions,
            total_notional_exposure,
            monthly_realized_pnl,
            monthly_unrealized_pnl,
            daily_realized_pnl: Dec::zero(),
            daily_unrealized_pnl: Dec::zero(),
        }
    }

    /// A context with positions, monthly P&L and daily P&L.
    pub fn with_monthly_and_daily_pnl(
        capital: Dec,
        open_positions: Vec<PositionSummary>,
        monthly_realized_pnl: Dec,
        monthly_unrealized_pnl: Dec,
        daily_realized_pnl: Dec,
        daily_unrealized_pnl: Dec,
    ) -> (r: RiskContext)
        requires
            notionals_summable(open_positions@),
        ensures
            r.capital == capital,
            r.open_positions@ == open_positions@,
            notional_sum(open_positions@) == Some(r.total_notional_exposure@),
            r.total_notional_exposure.wf(),
            abs_int(r.total_notional_exposure.units()) <= notional_magnitude(open_positions@)
                + open_positions@.len() * one_units(),
            r.monthly_realized_pnl == monthly_realized_pnl,
            r.monthly_unrealized_pnl == monthly_unrealized_pnl,
            r.daily_realized_pnl == daily_realized_pnl,
            r.daily_unrealized_pnl == daily_unrealized_pnl,
    {
        let total_notional_exposure = total_notional(&open_positions);
        RiskContext {
            capital,
            open_positions,
            total_notional_exposure,
            monthly_realized_pnl,
            monthly_unrealized_pnl,
            daily_realized_pnl,
            daily_unrealized_pnl,
        }
    }

    /// Number of open positions.
    pub fn open_position_count(&self) -> (r: usize)
        ensures
            r == self.open_positions@.len(),
    {
        self.open_positions.len()
    }

    /// Monthly P&L: realized + unrealized.
    pub fn total_monthly_pnl(&self) -> (r: Dec)
        requires
            self.monthly_realized_pnl.wf(),
            self.monthly_unrealized_pnl.wf(),
            addable(self.monthly_realized_pnl, self.monthly_unrealized_pnl),
        ensures
            r.wf(),
            decimal_add(self.monthly_realized_pnl@, self.monthly_unrealized_pnl@) == Some(r@),
    {
        self.monthly_realized_pnl.checked_add(self.monthly_unrealized_pnl).unwrap()
    }

    /// Daily P&L: realized + unrealized.
    pub fn total_daily_pnl(&self) -> (r: Dec)
        requires
            self.daily_realized_pnl.wf(),
            self.daily_unrealized_pnl.wf(),
            addable(self.daily_realized_pnl, self.daily_unrealized_pnl),
        ensures
            r.wf(),
            decimal_add(self.daily_realized_pnl@, self.daily_unrealized_pnl@) == Some(r@),
    {
        self.daily_realized_pnl.checked_add(self.daily_unrealized_pnl).unwrap()
    }

    /// Whether a position with the same symbol and side is already open.
    pub fn has_duplicate_position(&self, symbol: &str, side: &str) -> (r: bool)
        ensures
            r == has_duplicate(self.open_positions@, symbol@, side@),
    {
        let n = self.open_positions.len();
        let mut i: usize = 0;
        while i < n
            invariant
                n == self.open_positions@.len(),
                i <= n,
                forall|j: int|
                    0 <= j < i ==> !((#[trigger] self.open_positions@[j]).symbol@ == symbol@
                        && self.open_positions@[j].side@ == side@),
            decreases n - i,
        {
            let p = &self.open_positions[i];
            if str_eq(p.symbol.as_str(), symbol) && str_eq(p.side.as_str(), side) {
                assert(self.open_positions@[i as int].symbol@ == symbol@);
                return true;
            }
            i = i + 1;
        }
        false
    }
}

// =============================================================================
// Proposed trade and verdict
// =============================================================================
/// The proposed trade to be evaluated.
#[derive(Debug, Clone, PartialEq)]
pub struct ProposedTrade {
    /// Trading pair symbol
    pub symbol: String,
    /// Position direction
    pub side: String,
    /// Position quantity
    pub quantity: Dec,
    /// Entry price
    pub entry_price: Dec,
    /// Notional value (quantity × entry_price)
    pub notional_value: Dec,
    /// Margin required (notional / leverage)
    pub margin_required: Dec,
}

/// Which risk check failed.
#[derive(Debug, Clone, Copy, PartialEq, Eq, Structural)]
pub enum RiskCheck {
    /// Too many open positions
    MaxOpenPositions,
    /// Total exposure exceeds limit
    TotalExposure,
    /// Single position too large
    SinglePositionConcentration,
    /// Not enough margin available
    InsufficientMargin,
    /// Monthly drawdown limit exceeded (MonthlyHalt)
    MonthlyDrawdown,
    /// Daily loss limit exceeded (blocks new entries for the day)
    DailyLossLimit,
    /// Already have position on same symbol+side
    DuplicatePosition,
}

impl RiskCheck {
    /// The check's name in snake case.
    pub open spec fn spec_name(self) -> Seq<char> {
        match self {
            RiskCheck::MaxOpenPositions => "max_open_positions"@,
            RiskCheck::TotalExposure => "total_exposure"@,
            RiskCheck::SinglePositionConcentration => "single_position_concentration"@,
            RiskCheck::InsufficientMargin => "insufficient_margin"@,
            RiskCheck::MonthlyDrawdown => "monthly_drawdown"@,
            RiskCheck::DailyLossLimit => "daily_loss_limit"@,
            RiskCheck::DuplicatePosition => "duplicate_position"@,
        }
    }

    /// Human-readable name.
    pub fn name(&self) -> (r: &'static str)
        ensures
            r@ == self.spec_name(),
    {
        match self {
            RiskCheck::MaxOpenPositions => "max_open_positions",
            RiskCheck::TotalExposure => "total_exposure",
            RiskCheck::SinglePositionConcentration => "single_position_concentration",
            RiskCheck::InsufficientMargin => "insufficient_margin",
            RiskCheck::MonthlyDrawdown => "monthly_drawdown",
            RiskCheck::DailyLossLimit => "daily_loss_limit",
            RiskCheck::DuplicatePosition => "duplicate_position",
        }
    }
}

/// Result of risk evaluation.
#[derive(Debug, Clone, PartialEq)]
pub enum RiskVerdict {
    /// Trade approved, proceed with execution
    Approved,
    /// Trade rejected, do not execute
    Rejected {
        /// Which check failed
        check: RiskCheck,
        /// Human-readable reason
        reason: String,
    },
}

// =============================================================================
// Risk gate
// =============================================================================
/// `capital × pct / 100` as `rust_decimal` computes it.
pub open spec fn percent_view(capital: Dec, pct: Dec) -> (int, int) {
    spec_percent_of(capital@, pct@).unwrap()
}

/// The limits the risk evaluation takes of the capital are representable:
/// capital times each percentage does not overflow.
pub open spec fn limits_representable(limits: RiskLimits, capital: Dec) -> bool {
    &&& decimal_mul(capital@, limits.max_total_exposure_pct@) is Some
    &&& decimal_mul(capital@, limits.max_single_position_pct@) is Some
    &&& decimal_mul(capital@, limits.max_monthly_drawdown_pct@) is Some
    &&& decimal_mul(capital@, limits.daily_loss_limit_pct@) is Some
}

/// The numbers the risk evaluation reads are well formed and the sums it
/// adds are representable.
pub open spec fn evaluation_numbers_ok(
    limits: RiskLimits,
    proposed: ProposedTrade,
    context: RiskContext,
) -> bool {
    &&& context.capital.wf()
    &&& limits.max_total_exposure_pct.wf()
    &&& limits.max_single_position_pct.wf()
    &&& limits.max_monthly_drawdown_pct.wf()
    &&& limits.daily_loss_limit_pct.wf()
    &&& proposed.notional_value.wf()
    &&& context.total_notional_exposure.wf()
    &&& addable(context.total_notional_exposure, proposed.notional_value)
    &&& context.monthly_realized_pnl.wf() && context.monthly_unrealized_pnl.wf()
    &&& addable(context.monthly_realized_pnl, context.monthly_unrealized_pnl)
    &&& context.daily_realized_pnl.wf() && context.daily_unrealized_pnl.wf()
    &&& addable(context.daily_realized_pnl, context.daily_unrealized_pnl)
}

/// The numbers the risk evaluation computes with are in range: the limits
/// taken of the capital are representable, and so are the sums it adds.
pub open spec fn evaluation_inputs_ok(
    limits: RiskLimits,
    proposed: ProposedTrade,
    context: RiskContext,
) -> bool {
    &&& evaluation_numbers_ok(limits, proposed, context)
    &&& limits_representable(limits, context.capital)
}

/// The verdict the risk evaluation gives: rejected by the first failing
/// check, in order, with its reason; approved when every check passes.
pub open spec fn is_verdict(limits: RiskLimits, proposed: ProposedTrade, context: RiskContext, r: RiskVerdict) -> bool {
    match first_failed_check(limits, proposed, context) {
        None => r is Approved,
        Some(c) => r matches RiskVerdict::Rejected { check, reason } && check == c
            && reason@ == rejection_reason(c, limits, proposed, context),
    }
}

/// Exposure after the trade: current total plus the trade's notional.
pub open spec fn new_exposure(proposed: ProposedTrade, context: RiskContext) -> (int, int) {
    decimal_add(context.total_notional_exposure@, proposed.notional_value@).unwrap()
}

/// Monthly P&L: realized plus unrealized.
pub open spec fn monthly_pnl(context: RiskContext) -> (int, int) {
    decimal_add(context.monthly_realized_pnl@, context.monthly_unrealized_pnl@).unwrap()
}

/// Daily P&L: realized plus unrealized.
pub open spec fn daily_pnl(context: RiskContext) -> (int, int) {
    decimal_add(context.daily_realized_pnl@, context.daily_unrealized_pnl@).unwrap()
}

/// The first check, in evaluation order, that the trade fails; `None` when
/// it passes them all.
pub open spec fn first_failed_check(
    limits: RiskLimits,
    proposed: ProposedTrade,
    context: RiskContext,
) -> Option<RiskCheck> {
    let capital = context.capital;
    if context.open_positions@.len() >= limits.max_open_positions {
        Some(RiskCheck::MaxOpenPositions)
    } else if view_units(new_exposure(proposed, context)) > view_units(
        percent_view(capital, limits.max_total_exposure_pct),
    ) {
        Some(RiskCheck::TotalExposure)
    } else if proposed.notional_value.units() > view_units(
        percent_view(capital, limits.max_single_position_pct),
    ) {
        Some(RiskCheck::SinglePositionConcentration)
    } else if has_duplicate(context.open_positions@, proposed.symbol@, proposed.side@) {
        Some(RiskCheck::DuplicatePosition)
    } else if view_units(monthly_pnl(context)) <= -view_units(
        percent_view(capital, limits.max_monthly_drawdown_pct),
    ) {
        Some(RiskCheck::MonthlyDrawdown)
    } else if view_units(daily_pnl(context)) <= -view_units(
        percent_view(capital, limits.daily_loss_limit_pct),
    ) {
        Some(RiskCheck::DailyLossLimit)
    } else {
        None
    }
}

/// The reason given for rejecting the trade by `check`.
pub open spec fn rejection_reason(
    check: RiskCheck,
    limits: RiskLimits,
    proposed: ProposedTrade,
    context: RiskContext,
) -> Seq<char> {
    let capital = context.capital;
    match check {
        RiskCheck::MaxOpenPositions => "Already have "@ + decimal_digits(
            context.open_positions@.len(),
        ) + " open positions (max: "@ + decimal_digits(limits.max_open_positions as nat) + ")"@,
        RiskCheck::TotalExposure => "Total exposure "@ + decimal_text(
            context.total_notional_exposure@,
        ) + " + "@ + decimal_text(proposed.notional_value@) + " would exceed "@ + decimal_text(
            limits.max_total_exposure_pct@,
        ) + "% of capital ("@ + decimal_text(percent_view(capital, limits.max_total_exposure_pct))
            + ")"@,
        RiskCheck::SinglePositionConcentration => "Position size "@ + decimal_text(
            proposed.notional_value@,
        ) + " exceeds "@ + decimal_text(limits.max_single_position_pct@) + "% of capital ("@
            + decimal_text(percent_view(capital, limits.max_single_position_pct)) + ")"@,
        RiskCheck::DuplicatePosition => "Already have "@ + proposed.side@ + " position on "@
            + proposed.symbol@,
        RiskCheck::MonthlyDrawdown => "Monthly P&L "@ + decimal_text(monthly_pnl(context))
            + " has exceeded drawdown limit of -"@ + decimal_text(limits.max_monthly_drawdown_pct@)
            + "% (MonthlyHalt triggered)"@,
        RiskCheck::DailyLossLimit => "Daily loss "@ + decimal_text(daily_pnl(context))
            + " has exceeded limit of -"@ + decimal_text(limits.daily_loss_limit_pct@) + "% ("@
            + decimal_text(percent_view(capital, limits.daily_loss_limit_pct)) + ")"@,
        RiskCheck::InsufficientMargin => Seq::empty(),
    }
}

/// The pre-trade approval gate.
#[derive(Debug, Clone)]
pub struct RiskGate {
    limits: RiskLimits,
}

impl RiskGate {
    /// The configured limits.
    pub closed spec fn spec_limits(self) -> RiskLimits {
        self.limits
    }

    /// The default limits.
    pub fn new() -> (r: RiskGate)
        ensures
            r.spec_limits().max_open_positions == 3,
            r.spec_limits().max_total_exposure_pct@ == (30int, 0int),
            r.spec_limits().max_single_position_pct@ == (15int, 0int),
            r.spec_limits().max_monthly_drawdown_pct@ == (4int, 0int),
            r.spec_limits().daily_loss_limit_pct@ == (1int, 0int),
    {
        RiskGate { limits: RiskLimits::default() }
    }

    /// Custom limits.
    pub fn with_limits(limits: RiskLimits) -> (r: RiskGate)
        ensures
            r.spec_limits() == limits,
    {
        RiskGate { limits }
    }

    /// The current limits.
    pub fn limits(&self) -> (r: &RiskLimits)
        ensures
            *r == self.spec_limits(),
    {
        &self.limits
    }

    /// `evaluate`, where the limits taken of the capital are representable;
    /// `None` where capital times a percentage limit overflows (the
    /// evaluation cannot be computed there).
    pub fn evaluate_checked(&self, proposed: &ProposedTrade, context: &RiskContext) -> (r: Option<
        RiskVerdict,
    >)
        requires
            evaluation_numbers_ok(self.spec_limits(), *proposed, *context),
        ensures
            r is Some <==> limits_representable(self.spec_limits(), context.capital),
            r matches Some(v) ==> is_verdict(self.spec_limits(), *proposed, *context, v),
    {
        let capital = context.capital;
        let fits = capital.checked_mul(self.limits.max_total_exposure_pct).is_some()
            && capital.checked_mul(self.limits.max_single_position_pct).is_some()
            && capital.checked_mul(self.limits.max_monthly_drawdown_pct).is_some()
            && capital.checked_mul(self.limits.daily_loss_limit_pct).is_some();
        if fits {
            Some(self.evaluate(proposed, context))
        } else {
            None
        }
    }

    /// Evaluate a proposed trade against the current risk context: the
    /// first failing check, in order, rejects it with its reason; a trade
    /// that passes every check is approved.
    pub fn evaluate(&self, proposed: &ProposedTrade, context: &RiskContext) -> (r: RiskVerdict)
        requires
            evaluation_inputs_ok(self.spec_limits(), *proposed, *context),
        ensures
            is_verdict(self.spec_limits(), *proposed, *context, r),
    {
        let limits = self.limits;
        let capital = context.capital;
        // 1. Open positions
        let count = context.open_position_count();
        if count >= limits.max_open_positions {
            let mut reason = owned("Already have ");
            reason.append(usize_text(count).as_str());
            reason.append(" open positions (max: ");
            reason.append(usize_text(limits.max_open_positions).as_str());
            reason.append(")");
            return RiskVerdict::Rejected { check: RiskCheck::MaxOpenPositions, reason };
        }
        // 2. Total exposure
        let new_total_exposure = context.total_notional_exposure.checked_add(
            proposed.notional_value,
        ).unwrap();
        let max_exposure = percent_of_representable(capital, limits.max_total_exposure_pct);
        if new_total_exposure.gt(max_exposure) {
            let mut reason = owned("Total exposure ");
            reason.append(context.total_notional_exposure.to_text().as_str());
            reason.append(" + ");
            reason.append(proposed.notional_value.to_text().as_str());
            reason.append(" would exceed ");
            reason.append(limits.max_total_exposure_pct.to_text().as_str());
            reason.append("% of capital (");
            reason.append(max_exposure.to_text().as_str());
            reason.append(")");
            return RiskVerdict::Rejected { check: RiskCheck::TotalExposure, reason };
        }
        // 3. Single position concentration
        let max_single = percent_of_representable(capital, limits.max_single_position_pct);
        if proposed.notional_value.gt(max_single) {
            let mut reason = owned("Position size ");
            reason.append(proposed.notional_value.to_text().as_str());
            reason.append(" exceeds ");
            reason.append(limits.max_single_position_pct.to_text().as_str());
            reason.append("% of capital (");
            reason.append(max_single.to_text().as_str());
            reason.append(")");
            return RiskVerdict::Rejected { check: RiskCheck::SinglePositionConcentration, reason };
        }
        // 4. Duplicate symbol and side
        if context.has_duplicate_position(proposed.symbol.as_str(), proposed.side.as_str()) {
            let mut reason = owned("Already have ");
            reason.append(proposed.side.as_str());
            reason.append(" position on ");
            reason.append(proposed.symbol.as_str());
            return RiskVerdict::Rejected { check: RiskCheck::DuplicatePosition, reason };
        }
        // 5. Monthly drawdown (MonthlyHalt)
        let monthly = context.total_monthly_pnl();
        let monthly_loss_limit = percent_of_representable(capital, limits.max_monthly_drawdown_pct);
        if monthly.le(monthly_loss_limit.neg()) {
            let mut reason = owned("Monthly P&L ");
            reason.append(monthly.to_text().as_str());
            reason.append(" has exceeded drawdown limit of -");
            reason.append(limits.max_monthly_drawdown_pct.to_text().as_str());
            reason.append("% (MonthlyHalt triggered)");
            return RiskVerdict::Rejected { check: RiskCheck::MonthlyDrawdown, reason };
        }
        // 6. Daily loss limit
        let daily = context.total_daily_pnl();
        let daily_loss_limit = percent_of_representable(capital, limits.daily_loss_limit_pct);
        if daily.le(daily_loss_limit.neg()) {
            let mut reason = owned("Daily loss ");
            reason.append(daily.to_text().as_str());
            reason.append(" has exceeded limit of -");
            reason.append(limits.daily_loss_limit_pct.to_text().as_str());
            reason.append("% (");
            reason.append(daily_loss_limit.to_text().as_str());
            reason.append(")");
            return RiskVerdict::Rejected { check: RiskCheck::DailyLossLimit, reason };
        }
        RiskVerdict::Approved
    }
}

impl Default for RiskGate {
    /// The default limits.
    fn default() -> (r: RiskGate)
        ensures
            r.spec_limits().max_open_positions == 3,
            r.spec_limits().max_total_exposure_pct@ == (30int, 0int),
            r.spec_limits().max_single_position_pct@ == (15int, 0int),
            r.spec_limits().max_monthly_drawdown_pct@ == (4int, 0int),
            r.spec_limits().daily_loss_limit_pct@ == (1int, 0int),
    {
        RiskGate::new()
    }
}

} // verus!
