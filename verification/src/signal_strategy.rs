//! Deterministic signal strategies. Entry policies resolve to strategy
//! identifiers; a strategy looks at closed candles (oldest first) and either
//! confirms a signal or not. Strategies do not size positions, compute
//! stops, check risk or place orders.

use vstd::prelude::*;

use crate::decimal::{
    abs_int, decimal_add, decimal_div, decimal_mul, decimal_sub, not_tiny, one_units, safe_units,
    view_abs, view_units, within, Dec,
};
use crate::entities::PositionId;
use crate::ids::Timestamp;
use crate::market_data::Candle;
use crate::policy::{EntryPolicy, StrategyId};
use crate::technical_stop_analyzer::{chart_price_ok, max_chart_whole, views};
use crate::text::{owned, str_eq, usize_text};
use crate::value_objects::{Side, Symbol};

verus! {

// =============================================================================
// Context and decisions
// =============================================================================
/// What a strategy is evaluated on.
#[derive(Debug, Clone)]
pub struct SignalContext {
    /// Position being evaluated
    pub position_id: PositionId,
    /// Trading pair being evaluated
    pub symbol: Symbol,
    /// Direction requested by the entry intent
    pub side: Side,
    /// Closed candles, oldest first
    pub candles: Vec<Candle>,
    /// Evaluation time supplied by the caller
    pub evaluated_at: Timestamp,
}

/// Strategy evaluation result.
#[derive(Debug, Clone, PartialEq)]
pub enum SignalDecision {
    /// No signal is confirmed
    NoSignal,
    /// The strategy confirmed a signal
    SignalConfirmed {
        /// Confirmed entry side
        side: Side,
        /// Reason, for audit
        reason: SignalReason,
        /// Close time of the confirming candle
        observed_at: Timestamp,
        /// Reference price for the entry
        reference_price: Dec,
    },
}

/// Why a signal was confirmed.
#[derive(Debug, Clone, Copy, PartialEq)]
pub enum SignalReason {
    /// Immediate policy confirmation
    Immediate,
    /// SMA crossover
    SmaCrossover {
        /// Fast SMA period
        fast_period: usize,
        /// Slow SMA period
        slow_period: usize,
    },
    /// Candlestick reversal pattern
    ReversalPattern {
        /// The pattern
        pattern: ReversalPattern,
    },
    /// Rejection of a key level
    KeyLevelReaction {
        /// Level kind
        level_kind: KeyLevelKind,
        /// The support or resistance level
        level_price: Dec,
    },
}

/// Supported reversal patterns.
#[derive(Debug, Clone, Copy, PartialEq, Eq, Structural)]
pub enum ReversalPattern {
    /// Hammer
    Hammer,
    /// Shooting star
    ShootingStar,
    /// Bullish engulfing
    BullishEngulfing,
    /// Bearish engulfing
    BearishEngulfing,
}

/// Kind of key level.
#[derive(Debug, Clone, Copy, PartialEq, Eq, Structural)]
pub enum KeyLevelKind {
    /// Support, for long entries
    Support,
    /// Resistance, for short entries
    Resistance,
}

impl ReversalPattern {
    /// The pattern's name.
    pub open spec fn spec_text(self) -> Seq<char> {
        match self {
            ReversalPattern::Hammer => "hammer"@,
            ReversalPattern::ShootingStar => "shooting_star"@,
            ReversalPattern::BullishEngulfing => "bullish_engulfing"@,
            ReversalPattern::BearishEngulfing => "bearish_engulfing"@,
        }
    }

    /// The pattern's name.
    pub fn display(&self) -> (r: String)
        ensures
            r@ == self.spec_text(),
    {
        match self {
            ReversalPattern::Hammer => owned("hammer"),
            ReversalPattern::ShootingStar => owned("shooting_star"),
            ReversalPattern::BullishEngulfing => owned("bullish_engulfing"),
            ReversalPattern::BearishEngulfing => owned("bearish_engulfing"),
        }
    }
}

impl KeyLevelKind {
    /// The kind's name.
    pub open spec fn spec_text(self) -> Seq<char> {
        match self {
            KeyLevelKind::Support => "support"@,
            KeyLevelKind::Resistance => "resistance"@,
        }
    }

    /// The kind's name.
    pub fn display(&self) -> (r: String)
        ensures
            r@ == self.spec_text(),
    {
        match self {
            KeyLevelKind::Support => owned("support"),
            KeyLevelKind::Resistance => owned("resistance"),
        }
    }
}

impl SignalReason {
    /// `"immediate"`, `"sma_crossover:{fast}/{slow}"`,
    /// `"reversal_pattern:{pattern}"` or `"key_level:{kind}:{price}"`.
    pub fn display(&self) -> (r: String)
        requires
            self matches SignalReason::KeyLevelReaction { level_price, .. } ==> level_price.wf(),
        ensures
            r@ == match self {
                SignalReason::Immediate => "immediate"@,
                SignalReason::SmaCrossover { fast_period, slow_period } => "sma_crossover:"@
                    + crate::text::decimal_digits(*fast_period as nat) + "/"@
                    + crate::text::decimal_digits(*slow_period as nat),
                SignalReason::ReversalPattern { pattern } => "reversal_pattern:"@
                    + pattern.spec_text(),
                SignalReason::KeyLevelReaction { level_kind, level_price } => "key_level:"@
                    + level_kind.spec_text() + ":"@ + crate::decimal::decimal_text(level_price@),
            },
    {
        match self {
            SignalReason::Immediate => owned("immediate"),
            SignalReason::SmaCrossover { fast_period, slow_period } => {
                let mut s = owned("sma_crossover:");
                s.append(usize_text(*fast_period).as_str());
                s.append("/");
                s.append(usize_text(*slow_period).as_str());
                s
            },
            SignalReason::ReversalPattern { pattern } => {
                let mut s = owned("reversal_pattern:");
                s.append(pattern.display().as_str());
                s
            },
            SignalReason::KeyLevelReaction { level_kind, level_price } => {
                let mut s = owned("key_level:");
                s.append(level_kind.display().as_str());
                s.append(":");
                s.append(level_price.to_text().as_str());
                s
            },
        }
    }
}

// =============================================================================
// Inputs
// =============================================================================
/// A candle the strategies compute with: its prices are chart prices, and
/// its high and low are zero or at least 2^-32 in magnitude.
pub open spec fn strategy_candle_ok(c: Candle) -> bool {
    &&& chart_price_ok(c.open)
    &&& chart_price_ok(c.high)
    &&& chart_price_ok(c.low)
    &&& chart_price_ok(c.close)
    &&& not_tiny(c.high)
    &&& not_tiny(c.low)
}

/// Every candle is one the strategies compute with, and there are fewer than
/// 2^32 of them.
pub open spec fn strategy_candles_ok(c: Seq<Candle>) -> bool {
    &&& c.len() < 4294967296
    &&& forall|i: int| 0 <= i < c.len() ==> strategy_candle_ok(#[trigger] c[i])
}

/// Whether two symbols name the same currencies.
pub open spec fn same_pair(a: Symbol, b: Symbol) -> bool {
    a.base@ == b.base@ && a.quote@ == b.quote@
}

/// There are candles, all of the symbol.
pub open spec fn spec_candles_match(c: Seq<Candle>, symbol: Symbol) -> bool {
    c.len() > 0 && forall|i: int| 0 <= i < c.len() ==> same_pair((#[trigger] c[i]).symbol, symbol)
}

/// Whether there are candles and all are of the symbol.
pub fn candles_match_symbol(candles: &Vec<Candle>, symbol: &Symbol) -> (r: bool)
    ensures
        r == spec_candles_match(candles@, *symbol),
{
    let n = candles.len();
    if n == 0 {
        return false;
    }
    let mut i: usize = 0;
    while i < n
        invariant
            n == candles@.len(),
            i <= n,
            forall|k: int| 0 <= k < i ==> same_pair((#[trigger] candles@[k]).symbol, *symbol),
        decreases n - i,
    {
        if !candles[i].symbol.same_as(symbol) {
            return false;
        }
        i = i + 1;
    }
    true
}

// =============================================================================
// SMA crossover
// =============================================================================
/// The sum of the values, added in order from zero.
pub open spec fn dec_sum(s: Seq<(int, int)>) -> (int, int)
    decreases s.len(),
{
    if s.len() == 0 {
        (0, 0)
    } else {
        decimal_add(dec_sum(s.drop_last()), s.last()).unwrap()
    }
}

/// The mean of the last `period` values; `None` for a zero period or too
/// few values.
pub open spec fn sma(s: Seq<(int, int)>, period: int) -> Option<(int, int)> {
    if period == 0 || s.len() < period {
        None
    } else {
        Some(decimal_div(dec_sum(s.subrange(s.len() - period, s.len() as int)), (period, 0)).unwrap())
    }
}

/// A single crossover at the last price: for a Long the fast mean was not
/// above the slow one without the last price and is above it with it; for a
/// Short the reverse. False unless `2 <= fast < slow` and there are more
/// than `slow` prices.
pub open spec fn sma_crossover(s: Seq<(int, int)>, side: Side, fast: int, slow: int) -> bool {
    if fast < 2 || fast >= slow || s.len() < slow + 1 {
        false
    } else {
        let prev = s.drop_last();
        let was_above = view_units(sma(prev, fast).unwrap()) > view_units(sma(prev, slow).unwrap());
        let is_above = view_units(sma(s, fast).unwrap()) > view_units(sma(s, slow).unwrap());
        match side {
            Side::Long => !was_above && is_above,
            Side::Short => was_above && !is_above,
        }
    }
}

/// Whether the fast mean is above the slow one over the series.
pub open spec fn fast_above_slow(s: Seq<(int, int)>, fast: int, slow: int) -> bool {
    view_units(sma(s, fast).unwrap()) > view_units(sma(s, slow).unwrap())
}

/// A crossover is an event: whatever the side, a signal is given only when
/// the fast-against-slow ordering of the series without the last price
/// differs from that of the series with it. A Long signal is the fast mean
/// moving above the slow one, a Short signal its mirror: the fast mean moving
/// from above the slow one to at or below it.
pub proof fn lemma_crossover_is_an_event(s: Seq<(int, int)>, side: Side, fast: int, slow: int)
    ensures
        sma_crossover(s, side, fast, slow) ==> fast_above_slow(s.drop_last(), fast, slow)
            != fast_above_slow(s, fast, slow),
        2 <= fast < slow && s.len() > slow ==> (sma_crossover(s, Side::Long, fast, slow) <==> (
        !fast_above_slow(s.drop_last(), fast, slow) && fast_above_slow(s, fast, slow))),
        2 <= fast < slow && s.len() > slow ==> (sma_crossover(s, Side::Short, fast, slow) <==> (
        fast_above_slow(s.drop_last(), fast, slow) && !fast_above_slow(s, fast, slow))),
        !(sma_crossover(s, Side::Long, fast, slow) && sma_crossover(s, Side::Short, fast, slow)),
{
}

/// Prices the SMA arithmetic handles: chart prices, fewer than 2^32.
pub open spec fn prices_ok(s: Seq<Dec>) -> bool {
    &&& s.len() < 4294967296
    &&& forall|i: int| 0 <= i < s.len() ==> chart_price_ok(#[trigger] s[i])
}

/// The mean of `prices[end - period..end]`.
fn simple_moving_average(prices: &Vec<Dec>, end: usize, period: usize) -> (r: Option<Dec>)
    requires
        prices_ok(prices@),
        end <= prices@.len(),
    ensures
        opt_views(r) == sma(views(prices@.take(end as int)), period as int),
        r matches Some(d) ==> d.wf(),
{
    if period == 0 || end < period {
        return None;
    }
    let start = end - period;
    let ghost s = views(prices@.take(end as int));
    let ghost w = s.subrange(s.len() - period, s.len() as int);
    let mut sum = Dec::zero();
    let mut i: usize = start;
    let ghost b = (max_chart_whole() + 1) * one_units();
    while i < end
        invariant
            prices_ok(prices@),
            start <= i <= end,
            end <= prices@.len(),
            start == end - period,
            s == views(prices@.take(end as int)),
            w == s.subrange(s.len() - period, s.len() as int),
            b == (max_chart_whole() + 1) * one_units(),
            sum.wf(),
            sum@ == dec_sum(w.take(i - start)),
            abs_int(sum.units()) <= (i - start) * b,
        decreases end - i,
    {
        let x = prices[i];
        proof {
            assert(w.take(i - start + 1).drop_last() =~= w.take(i - start));
            assert(w.take(i - start + 1).last() == x@);
            let k = i - start;
            assert(abs_int(sum.units()) + abs_int(x.units()) <= safe_units()) by (nonlinear_arith)
                requires
                    abs_int(sum.units()) <= k * b,
                    abs_int(x.units()) <= max_chart_whole() * one_units(),
                    0 <= k < 4294967296,
                    b == (max_chart_whole() + 1) * one_units(),
                    max_chart_whole() == 1099511627776,
                    safe_units() == 39614081257132168796771975168 * one_units(),
                    one_units() > 0,
            ;
        }
        let next = sum.checked_add(x).unwrap();
        proof {
            let k = i - start;
            assert(abs_int(next.units()) <= (k + 1) * b) by (nonlinear_arith)
                requires
                    abs_int(next.units()) <= abs_int(sum.units()) + abs_int(x.units()) + one_units(),
                    abs_int(sum.units()) <= k * b,
                    abs_int(x.units()) <= max_chart_whole() * one_units(),
                    b == (max_chart_whole() + 1) * one_units(),
            ;
        }
        sum = next;
        i = i + 1;
    }
    assert(w.take(period as int) =~= w);
    let p = Dec::from_int(period as i64);
    proof {
        let t = abs_int(sum.units());
        assert(t * one_units() <= safe_units() * abs_int(p.units())) by (nonlinear_arith)
            requires
                t <= period * b,
                b == 1099511627777 * one_units(),
                abs_int(p.units()) == period * one_units(),
                safe_units() == 39614081257132168796771975168 * one_units(),
                one_units() > 0,
                period >= 1,
                t >= 0,
        ;
    }
    Some(sum.checked_div(p).unwrap())
}

/// The views of an optional decimal.
pub open spec fn opt_views(d: Option<Dec>) -> Option<(int, int)> {
    match d {
        Some(x) => Some(x@),
        None => None,
    }
}

/// Detect a single crossover at the last of the ordered prices: the previous
/// observation is the same series without the last price.
pub fn detect_sma_crossover_from_prices(
    prices: &Vec<Dec>,
    side: Side,
    fast_period: usize,
    slow_period: usize,
) -> (r: bool)
    requires
        prices_ok(prices@),
    ensures
        r == sma_crossover(views(prices@), side, fast_period as int, slow_period as int),
{
    let n = prices.len();
    if fast_period < 2 || fast_period >= slow_period || n <= slow_period {
        return false;
    }
    proof {
        assert(views(prices@.take(n as int)) =~= views(prices@));
        assert(views(prices@.take(n - 1)) =~= views(prices@).drop_last());
    }
    let previous_fast = simple_moving_average(prices, n - 1, fast_period).unwrap();
    let previous_slow = simple_moving_average(prices, n - 1, slow_period).unwrap();
    let current_fast = simple_moving_average(prices, n, fast_period).unwrap();
    let current_slow = simple_moving_average(prices, n, slow_period).unwrap();
    let was_above = previous_fast.gt(previous_slow);
    let is_above = current_fast.gt(current_slow);
    match side {
        Side::Long => !was_above && is_above,
        Side::Short => was_above && !is_above,
    }
}

/// SMA crossover strategy.
#[derive(Debug, Clone, Copy)]
pub struct SmaCrossoverStrategy {
    /// Fast SMA period
    pub fast_period: usize,
    /// Slow SMA period
    pub slow_period: usize,
}

/// The closes of the candles, in order.
pub open spec fn closes(c: Seq<Candle>) -> Seq<Dec> {
    c.map_values(|k: Candle| k.close)
}

/// The confirmed decision at the last candle.
pub open spec fn confirmed_at_last(c: Seq<Candle>, side: Side, reason: SignalReason) -> SignalDecision {
    SignalDecision::SignalConfirmed {
        side,
        reason,
        observed_at: c.last().close_time,
        reference_price: c.last().close,
    }
}

impl SmaCrossoverStrategy {
    /// A strategy with the given periods.
    pub fn new(fast_period: usize, slow_period: usize) -> (r: SmaCrossoverStrategy)
        ensures
            r.fast_period == fast_period,
            r.slow_period == slow_period,
    {
        SmaCrossoverStrategy { fast_period, slow_period }
    }

    /// What `evaluate` decides.
    pub open spec fn spec_evaluate(self, ctx: SignalContext) -> SignalDecision {
        if spec_candles_match(ctx.candles@, ctx.symbol) && sma_crossover(
            views(closes(ctx.candles@)),
            ctx.side,
            self.fast_period as int,
            self.slow_period as int,
        ) {
            confirmed_at_last(
                ctx.candles@,
                ctx.side,
                SignalReason::SmaCrossover {
                    fast_period: self.fast_period,
                    slow_period: self.slow_period,
                },
            )
        } else {
            SignalDecision::NoSignal
        }
    }

    /// Confirm on a single SMA crossover at the last closed candle; the
    /// reference price is that candle's close.
    pub fn evaluate(&self, ctx: SignalContext) -> (r: SignalDecision)
        requires
            strategy_candles_ok(ctx.candles@),
        ensures
            r == self.spec_evaluate(ctx),
    {
        if !candles_match_symbol(&ctx.candles, &ctx.symbol) {
            return SignalDecision::NoSignal;
        }
        let closes = candle_closes(&ctx.candles);
        if !detect_sma_crossover_from_prices(&closes, ctx.side, self.fast_period, self.slow_period) {
            return SignalDecision::NoSignal;
        }
        let last = &ctx.candles[ctx.candles.len() - 1];
        SignalDecision::SignalConfirmed {
            side: ctx.side,
            reason: SignalReason::SmaCrossover {
                fast_period: self.fast_period,
                slow_period: self.slow_period,
            },
            observed_at: last.close_time,
            reference_price: last.close,
        }
    }
}

impl Default for SmaCrossoverStrategy {
    /// Periods 9 and 21.
    fn default() -> (r: SmaCrossoverStrategy)
        ensures
            r.fast_period == 9,
            r.slow_period == 21,
    {
        SmaCrossoverStrategy::new(9, 21)
    }
}

/// The closes of the candles.
fn candle_closes(candles: &Vec<Candle>) -> (r: Vec<Dec>)
    requires
        strategy_candles_ok(candles@),
    ensures
        r@ == closes(candles@),
        prices_ok(r@),
{
    let mut out: Vec<Dec> = Vec::new();
    let n = candles.len();
    let mut i: usize = 0;
    while i < n
        invariant
            n == candles@.len(),
            i <= n,
            out@ == closes(candles@.take(i as int)),
        decreases n - i,
    {
        out.push(candles[i].close);
        assert(closes(candles@.take(i + 1)) =~= closes(candles@.take(i as int)).push(candles@[i as int].close));
        i = i + 1;
    }
    assert(candles@.take(n as int) =~= candles@);
    proof {
        assert forall|k: int| 0 <= k < out@.len() implies chart_price_ok(#[trigger] out@[k]) by {
            assert(strategy_candle_ok(candles@[k]));
        }
    }
    out
}

// =============================================================================
// Reversal patterns
// =============================================================================
/// The candle's body, upper shadow, lower shadow and range, as `rust_decimal`
/// computes them; `None` for a range that is not positive.
pub open spec fn candle_shape(c: Candle) -> Option<((int, int), (int, int), (int, int), (int, int))> {
    let range = decimal_sub(c.high@, c.low@).unwrap();
    let top = if c.open.units() > c.close.units() {
        c.open
    } else {
        c.close
    };
    let bottom = if c.close.units() < c.open.units() {
        c.close
    } else {
        c.open
    };
    let body = decimal_sub(top@, bottom@).unwrap();
    let upper = decimal_sub(c.high@, top@).unwrap();
    let lower = decimal_sub(bottom@, c.low@).unwrap();
    if view_units(range) <= 0 {
        None
    } else {
        Some((body, upper, lower, range))
    }
}

/// A hammer: a small body (at most 35% of the range) with a lower shadow at
/// least twice the body and an upper shadow at most the body.
pub open spec fn spec_is_hammer(c: Candle) -> bool {
    match candle_shape(c) {
        Some((body, upper, lower, range)) => {
            &&& view_units(body) > 0
            &&& view_units(body) <= view_units(decimal_mul(range, (35, 2)).unwrap())
            &&& view_units(lower) >= view_units(decimal_mul(body, (2, 0)).unwrap())
            &&& view_units(upper) <= view_units(body)
        },
        None => false,
    }
}

/// A shooting star: the hammer with the shadows exchanged.
pub open spec fn spec_is_shooting_star(c: Candle) -> bool {
    match candle_shape(c) {
        Some((body, upper, lower, range)) => {
            &&& view_units(body) > 0
            &&& view_units(body) <= view_units(decimal_mul(range, (35, 2)).unwrap())
            &&& view_units(upper) >= view_units(decimal_mul(body, (2, 0)).unwrap())
            &&& view_units(lower) <= view_units(body)
        },
        None => false,
    }
}

/// A bearish candle followed by a bullish one whose body covers it.
pub open spec fn spec_is_bullish_engulfing(previous: Candle, current: Candle) -> bool {
    &&& previous.close.units() < previous.open.units()
    &&& current.close.units() > current.open.units()
    &&& current.open.units() <= previous.close.units()
    &&& current.close.units() >= previous.open.units()
}

/// A bullish candle followed by a bearish one whose body covers it.
pub open spec fn spec_is_bearish_engulfing(previous: Candle, current: Candle) -> bool {
    &&& previous.close.units() > previous.open.units()
    &&& current.close.units() < current.open.units()
    &&& current.open.units() >= previous.close.units()
    &&& current.close.units() <= previous.open.units()
}

/// Engulfing patterns are mirror images: a bullish engulfing turns a falling
/// candle into a rising one whose body is at least as long and covers it, a
/// bearish engulfing the reverse, and no pair of candles is both.
pub proof fn lemma_engulfing_mirror(previous: Candle, current: Candle)
    ensures
        spec_is_bullish_engulfing(previous, current) ==> current.close.units() - current.open.units()
            >= previous.open.units() - previous.close.units() > 0,
        spec_is_bearish_engulfing(previous, current) ==> current.open.units() - current.close.units()
            >= previous.close.units() - previous.open.units() > 0,
        spec_is_bullish_engulfing(previous, current) ==> previous.close.units() < previous.open.units()
            && current.open.units() < current.close.units(),
        spec_is_bearish_engulfing(previous, current) ==> previous.open.units() < previous.close.units()
            && current.close.units() < current.open.units(),
        !(spec_is_bullish_engulfing(previous, current) && spec_is_bearish_engulfing(previous, current)),
{
}

/// The bullish pattern at the last candle: a hammer first, else a bullish
/// engulfing of the candle before.
pub open spec fn bullish_pattern(c: Seq<Candle>) -> Option<ReversalPattern> {
    if c.len() == 0 {
        None
    } else if spec_is_hammer(c.last()) {
        Some(ReversalPattern::Hammer)
    } else if c.len() >= 2 && spec_is_bullish_engulfing(c[c.len() - 2], c.last()) {
        Some(ReversalPattern::BullishEngulfing)
    } else {
        None
    }
}

/// The bearish pattern at the last candle: a shooting star first, else a
/// bearish engulfing of the candle before.
pub open spec fn bearish_pattern(c: Seq<Candle>) -> Option<ReversalPattern> {
    if c.len() == 0 {
        None
    } else if spec_is_shooting_star(c.last()) {
        Some(ReversalPattern::ShootingStar)
    } else if c.len() >= 2 && spec_is_bearish_engulfing(c[c.len() - 2], c.last()) {
        Some(ReversalPattern::BearishEngulfing)
    } else {
        None
    }
}

/// A candle's upper shadow: from the higher of open and close to the high.
pub open spec fn upper_shadow_of(c: Candle) -> (int, int) {
    decimal_sub(c.high@, (if c.close.units() < c.open.units() { c.open } else { c.close })@).unwrap()
}

/// A candle's lower shadow: from the low to the lower of open and close.
pub open spec fn lower_shadow_of(c: Candle) -> (int, int) {
    decimal_sub((if c.close.units() < c.open.units() { c.close } else { c.open })@, c.low@).unwrap()
}

/// A candle's body: the higher of open and close less the lower.
pub open spec fn body_of(c: Candle) -> (int, int) {
    if c.close.units() < c.open.units() {
        decimal_sub(c.open@, c.close@).unwrap()
    } else {
        decimal_sub(c.close@, c.open@).unwrap()
    }
}

/// A small body: positive and at most 35% of a positive range.
pub open spec fn small_body(c: Candle) -> bool {
    let range = decimal_sub(c.high@, c.low@).unwrap();
    &&& view_units(range) > 0
    &&& view_units(body_of(c)) > 0
    &&& view_units(body_of(c)) <= view_units(decimal_mul(range, (35, 2)).unwrap())
}

/// The shooting star is the hammer with its shadows exchanged: a small body
/// with an upper shadow of at least twice the body and a lower shadow of at
/// most the body is a shooting star, and nothing else is (in particular no
/// candle whose upper shadow is below twice its body); a hammer has the long
/// shadow below and the short one above. So no candle is both.
pub proof fn lemma_shooting_star_mirrors_hammer(c: Candle)
    ensures
        spec_is_shooting_star(c) <==> small_body(c) && view_units(upper_shadow_of(c)) >= view_units(
            decimal_mul(body_of(c), (2, 0)).unwrap(),
        ) && view_units(lower_shadow_of(c)) <= view_units(body_of(c)),
        spec_is_hammer(c) <==> small_body(c) && view_units(lower_shadow_of(c)) >= view_units(
            decimal_mul(body_of(c), (2, 0)).unwrap(),
        ) && view_units(upper_shadow_of(c)) <= view_units(body_of(c)),
        view_units(upper_shadow_of(c)) < view_units(decimal_mul(body_of(c), (2, 0)).unwrap())
            ==> !spec_is_shooting_star(c),
{
}

/// The body, shadows and range of a candle.
fn shape_of(candle: &Candle) -> (r: Option<(Dec, Dec, Dec, Dec)>)
    requires
        strategy_candle_ok(*candle),
    ensures
        match (r, candle_shape(*candle)) {
            (Some((b, u, l, g)), Some((sb, su, sl, sg))) => b@ == sb && u@ == su && l@ == sl
                && g@ == sg && b.wf() && u.wf() && l.wf() && g.wf() && abs_int(b.units())
                <= 2199023255553 * one_units() && abs_int(g.units()) <= 2199023255553 * one_units(),
            (None, None) => true,
            _ => false,
        },
{
    let range = candle.high.checked_sub(candle.low).unwrap();
    if range.le(Dec::zero()) {
        return None;
    }
    let top = candle.open.max(candle.close);
    let bottom = candle.open.min(candle.close);
    let body = top.checked_sub(bottom).unwrap();
    let upper = candle.high.checked_sub(top).unwrap();
    let lower = bottom.checked_sub(candle.low).unwrap();
    Some((body, upper, lower, range))
}

/// Whether the candle is a hammer.
fn is_hammer(candle: &Candle) -> (r: bool)
    requires
        strategy_candle_ok(*candle),
    ensures
        r == spec_is_hammer(*candle),
{
    match shape_of(candle) {
        Some((body, upper, lower, range)) => {
            let ratio = Dec::new(35, 2);
            let two = Dec::from_int(2);
            proof {
                lemma_small_products(range, ratio, body, two);
            }
            body.gt(Dec::zero()) && body.le(range.checked_mul(ratio).unwrap()) && lower.ge(
                body.checked_mul(two).unwrap(),
            ) && upper.le(body)
        },
        None => false,
    }
}

/// Whether the candle is a shooting star.
fn is_shooting_star(candle: &Candle) -> (r: bool)
    requires
        strategy_candle_ok(*candle),
    ensures
        r == spec_is_shooting_star(*candle),
{
    match shape_of(candle) {
        Some((body, upper, lower, range)) => {
            let ratio = Dec::new(35, 2);
            let two = Dec::from_int(2);
            proof {
                lemma_small_products(range, ratio, body, two);
            }
            body.gt(Dec::zero()) && body.le(range.checked_mul(ratio).unwrap()) && upper.ge(
                body.checked_mul(two).unwrap(),
            ) && lower.le(body)
        },
        None => false,
    }
}

/// The products a candle's shape is compared with cannot overflow.
proof fn lemma_small_products(range: Dec, ratio: Dec, body: Dec, two: Dec)
    requires
        abs_int(range.units()) <= 2199023255553 * one_units(),
        abs_int(body.units()) <= 2199023255553 * one_units(),
        ratio@ == (35int, 2int),
        two@ == (2int, 0int),
    ensures
        abs_int(range.units()) * abs_int(ratio.units()) <= safe_units() * one_units(),
        abs_int(body.units()) * abs_int(two.units()) <= safe_units() * one_units(),
{
    crate::decimal::lemma_pow10_28();
    reveal_with_fuel(crate::decimal::pow10, 29);
    let c = one_units();
    assert(abs_int(ratio.units()) <= c);
    assert(abs_int(two.units()) == 2 * c);
    assert(abs_int(range.units()) * abs_int(ratio.units()) <= safe_units() * c) by (nonlinear_arith)
        requires
            0 <= abs_int(range.units()) <= 2199023255553 * c,
            0 <= abs_int(ratio.units()) <= c,
            safe_units() == 39614081257132168796771975168 * c,
            c > 0,
    ;
    assert(abs_int(body.units()) * abs_int(two.units()) <= safe_units() * c) by (nonlinear_arith)
        requires
            0 <= abs_int(body.units()) <= 2199023255553 * c,
            abs_int(two.units()) == 2 * c,
            safe_units() == 39614081257132168796771975168 * c,
            c > 0,
    ;
}

/// Whether `current` engulfs `previous` bullishly.
pub fn is_bullish_engulfing(previous: &Candle, current: &Candle) -> (r: bool)
    requires
        previous.open.wf() && previous.close.wf() && current.open.wf() && current.close.wf(),
    ensures
        r == spec_is_bullish_engulfing(*previous, *current),
{
    previous.close.lt(previous.open) && current.close.gt(current.open) && current.open.le(
        previous.close,
    ) && current.close.ge(previous.open)
}

/// Whether `current` engulfs `previous` bearishly.
pub fn is_bearish_engulfing(previous: &Candle, current: &Candle) -> (r: bool)
    requires
        previous.open.wf() && previous.close.wf() && current.open.wf() && current.close.wf(),
    ensures
        r == spec_is_bearish_engulfing(*previous, *current),
{
    previous.close.gt(previous.open) && current.close.lt(current.open) && current.open.ge(
        previous.close,
    ) && current.close.le(previous.open)
}

/// The bullish reversal pattern at the last candle, if any.
pub fn detect_bullish_reversal_pattern(candles: &Vec<Candle>) -> (r: Option<ReversalPattern>)
    requires
        strategy_candles_ok(candles@),
    ensures
        r == bullish_pattern(candles@),
{
    let n = candles.len();
    if n == 0 {
        return None;
    }
    let last = &candles[n - 1];
    if is_hammer(last) {
        return Some(ReversalPattern::Hammer);
    }
    if n < 2 {
        return None;
    }
    if is_bullish_engulfing(&candles[n - 2], last) {
        return Some(ReversalPattern::BullishEngulfing);
    }
    None
}

/// The bearish reversal pattern at the last candle, if any.
pub fn detect_bearish_reversal_pattern(candles: &Vec<Candle>) -> (r: Option<ReversalPattern>)
    requires
        strategy_candles_ok(candles@),
    ensures
        r == bearish_pattern(candles@),
{
    let n = candles.len();
    if n == 0 {
        return None;
    }
    let last = &candles[n - 1];
    if is_shooting_star(last) {
        return Some(ReversalPattern::ShootingStar);
    }
    if n < 2 {
        return None;
    }
    if is_bearish_engulfing(&candles[n - 2], last) {
        return Some(ReversalPattern::BearishEngulfing);
    }
    None
}

/// How many candles the pattern spans.
pub open spec fn pattern_len(p: ReversalPattern) -> int {
    match p {
        ReversalPattern::BullishEngulfing | ReversalPattern::BearishEngulfing => 2,
        ReversalPattern::Hammer | ReversalPattern::ShootingStar => 1,
    }
}

/// The `count` closes before the pattern move strictly down (Long) or
/// strictly up (Short), one after the other.
pub open spec fn spec_directional_move(c: Seq<Candle>, side: Side, p: ReversalPattern, count: int) -> bool {
    let end = c.len() - pattern_len(p);
    let start = end - count;
    if c.len() < pattern_len(p) + count {
        false
    } else {
        forall|i: int|
            start <= i && i + 1 < end ==> #[trigger] moves_on(side, c[i].close, c[i + 1].close)
    }
}

/// Whether the close moved from `a` to `b` in the direction leading into the
/// reversal: down (Long), up (Short).
pub open spec fn moves_on(side: Side, a: Dec, b: Dec) -> bool {
    match side {
        Side::Long => a.units() > b.units(),
        Side::Short => a.units() < b.units(),
    }
}

/// The lowest low (Long) or highest high (Short) of candles `from..to`, in
/// units; `None` for an empty range.
pub open spec fn extreme_of(c: Seq<Candle>, side: Side, from: int, to: int) -> Option<int>
    decreases to - from,
{
    if to <= from {
        None
    } else {
        let v = match side {
            Side::Long => c[to - 1].low.units(),
            Side::Short => c[to - 1].high.units(),
        };
        match extreme_of(c, side, from, to - 1) {
            None => Some(v),
            Some(e) => Some(
                match side {
                    Side::Long => if v < e {
                        v
                    } else {
                        e
                    },
                    Side::Short => if v > e {
                        v
                    } else {
                        e
                    },
                },
            ),
        }
    }
}

/// The pattern makes the local extreme: the lowest low (Long) or highest
/// high (Short) of the last `lookback` candles equals that of the pattern's
/// candles.
pub open spec fn spec_near_local_extreme(c: Seq<Candle>, side: Side, p: ReversalPattern, lookback: int) -> bool {
    let lb = if lookback < c.len() {
        lookback
    } else {
        c.len() as int
    };
    if c.len() < pattern_len(p) {
        false
    } else {
        extreme_of(c, side, c.len() - lb, c.len() as int) == extreme_of(
            c,
            side,
            c.len() - pattern_len(p),
            c.len() as int,
        )
    }
}

/// The lowest low (Long) or highest high (Short) of candles `from..to`.
fn extreme_in(candles: &Vec<Candle>, side: Side, from: usize, to: usize) -> (r: Option<Dec>)
    requires
        strategy_candles_ok(candles@),
        from <= to <= candles@.len(),
    ensures
        match r {
            Some(d) => d.wf() && extreme_of(candles@, side, from as int, to as int) == Some(d.units()),
            None => extreme_of(candles@, side, from as int, to as int) is None,
        },
{
    let mut best: Option<Dec> = None;
    let mut i = from;
    while i < to
        invariant
            strategy_candles_ok(candles@),
            from <= i <= to <= candles@.len(),
            match best {
                Some(d) => d.wf() && extreme_of(candles@, side, from as int, i as int) == Some(
                    d.units(),
                ),
                None => extreme_of(candles@, side, from as int, i as int) is None,
            },
        decreases to - i,
    {
        assert(strategy_candle_ok(candles@[i as int]));
        let v = match side {
            Side::Long => candles[i].low,
            Side::Short => candles[i].high,
        };
        best = match best {
            None => Some(v),
            Some(e) => Some(
                match side {
                    Side::Long => if v.lt(e) {
                        v
                    } else {
                        e
                    },
                    Side::Short => if v.gt(e) {
                        v
                    } else {
                        e
                    },
                },
            ),
        };
        i = i + 1;
    }
    best
}

/// Reversal pattern strategy.
#[derive(Debug, Clone, Copy)]
pub struct ReversalPatternStrategy {
    /// Number of prior candles used for directional-move confirmation
    pub directional_move_candles: usize,
    /// Lookback window for local extreme confirmation
    pub local_extreme_lookback: usize,
}

impl ReversalPatternStrategy {
    /// A strategy with the given windows.
    pub fn new(directional_move_candles: usize, local_extreme_lookback: usize) -> (r:
        ReversalPatternStrategy)
        ensures
            r.directional_move_candles == directional_move_candles,
            r.local_extreme_lookback == local_extreme_lookback,
    {
        ReversalPatternStrategy { directional_move_candles, local_extreme_lookback }
    }

    /// What `evaluate` decides.
    pub open spec fn spec_evaluate(self, ctx: SignalContext) -> SignalDecision {
        let c = ctx.candles@;
        let pattern = match ctx.side {
            Side::Long => bullish_pattern(c),
            Side::Short => bearish_pattern(c),
        };
        if !spec_candles_match(c, ctx.symbol) || c.len() < 3 {
            SignalDecision::NoSignal
        } else if let Some(p) = pattern {
            if spec_directional_move(c, ctx.side, p, self.directional_move_candles as int)
                && spec_near_local_extreme(c, ctx.side, p, self.local_extreme_lookback as int) {
                confirmed_at_last(c, ctx.side, SignalReason::ReversalPattern { pattern: p })
            } else {
                SignalDecision::NoSignal
            }
        } else {
            SignalDecision::NoSignal
        }
    }

    /// Confirm a reversal pattern at the last candle that follows a
    /// directional move and makes the local extreme.
    pub fn evaluate(&self, ctx: SignalContext) -> (r: SignalDecision)
        requires
            strategy_candles_ok(ctx.candles@),
        ensures
            r == self.spec_evaluate(ctx),
    {
        if !candles_match_symbol(&ctx.candles, &ctx.symbol) || ctx.candles.len() < 3 {
            return SignalDecision::NoSignal;
        }
        let pattern = match ctx.side {
            Side::Long => detect_bullish_reversal_pattern(&ctx.candles),
            Side::Short => detect_bearish_reversal_pattern(&ctx.candles),
        };
        let pattern = match pattern {
            Some(p) => p,
            None => return SignalDecision::NoSignal,
        };
        if !self.has_directional_move(&ctx.candles, ctx.side, pattern) {
            return SignalDecision::NoSignal;
        }
        if !self.occurs_near_local_extreme(&ctx.candles, ctx.side, pattern) {
            return SignalDecision::NoSignal;
        }
        let last = &ctx.candles[ctx.candles.len() - 1];
        SignalDecision::SignalConfirmed {
            side: ctx.side,
            reason: SignalReason::ReversalPattern { pattern },
            observed_at: last.close_time,
            reference_price: last.close,
        }
    }

    /// Whether the closes before the pattern moved strictly in the direction
    /// that the reversal turns.
    pub fn has_directional_move(&self, candles: &Vec<Candle>, side: Side, pattern: ReversalPattern) -> (r:
        bool)
        requires
            strategy_candles_ok(candles@),
        ensures
            r == spec_directional_move(
                candles@,
                side,
                pattern,
                self.directional_move_candles as int,
            ),
    {
        let pattern_candles: usize = match pattern {
            ReversalPattern::BullishEngulfing | ReversalPattern::BearishEngulfing => 2,
            ReversalPattern::Hammer | ReversalPattern::ShootingStar => 1,
        };
        let n = candles.len();
        if n < pattern_candles || n - pattern_candles < self.directional_move_candles {
            return false;
        }
        let end = n - pattern_candles;
        let start = end - self.directional_move_candles;
        let mut i = start;
        while i + 1 < end
            invariant
                strategy_candles_ok(candles@),
                start <= i <= end,
                end <= candles@.len(),
                candles@.len() < 4294967296,
                end == candles@.len() - pattern_len(pattern),
                start == end - self.directional_move_candles,
                forall|k: int|
                    start <= k < i && k + 1 < end ==> #[trigger] moves_on(
                        side,
                        candles@[k].close,
                        candles@[k + 1].close,
                    ),
            decreases end - i,
        {
            assert(strategy_candle_ok(candles@[i as int]));
            assert(strategy_candle_ok(candles@[i + 1]));
            let a = candles[i].close;
            let b = candles[i + 1].close;
            let ok = match side {
                Side::Long => a.gt(b),
                Side::Short => a.lt(b),
            };
            if !ok {
                assert(!moves_on(side, candles@[i as int].close, candles@[i + 1].close));
                return false;
            }
            i = i + 1;
        }
        true
    }

    /// Whether the pattern makes the local extreme of the last
    /// `local_extreme_lookback` candles.
    pub fn occurs_near_local_extreme(
        &self,
        candles: &Vec<Candle>,
        side: Side,
        pattern: ReversalPattern,
    ) -> (r: bool)
        requires
            strategy_candles_ok(candles@),
        ensures
            r == spec_near_local_extreme(
                candles@,
                side,
                pattern,
                self.local_extreme_lookback as int,
            ),
    {
        let pattern_candles: usize = match pattern {
            ReversalPattern::BullishEngulfing | ReversalPattern::BearishEngulfing => 2,
            ReversalPattern::Hammer | ReversalPattern::ShootingStar => 1,
        };
        let n = candles.len();
        if n < pattern_candles {
            return false;
        }
        let lookback = if self.local_extreme_lookback < n {
            self.local_extreme_lookback
        } else {
            n
        };
        let local = extreme_in(candles, side, n - lookback, n);
        let in_pattern = extreme_in(candles, side, n - pattern_candles, n);
        match (local, in_pattern) {
            (Some(a), Some(b)) => a.eq_value(b),
            (None, None) => true,
            _ => false,
        }
    }
}

impl Default for ReversalPatternStrategy {
    /// Three candles of directional move, lookback 8.
    fn default() -> (r: ReversalPatternStrategy)
        ensures
            r.directional_move_candles == 3,
            r.local_extreme_lookback == 8,
    {
        ReversalPatternStrategy::new(3, 8)
    }
}

// =============================================================================
// Key levels
// =============================================================================
/// Whether `a`'s low is at most `b`'s (Long) or `a`'s high at least `b`'s
/// (Short).
pub open spec fn level_le(side: Side, a: Candle, b: Candle) -> bool {
    match side {
        Side::Long => a.low.units() <= b.low.units(),
        Side::Short => a.high.units() >= b.high.units(),
    }
}

/// The low (Long) or high (Short) of a candle.
pub open spec fn level_price_of(side: Side, c: Candle) -> Dec {
    match side {
        Side::Long => c.low,
        Side::Short => c.high,
    }
}

/// Candle `i` is a local low (Long) or high (Short): no candle within `sw`
/// on either side lies beyond it.
pub open spec fn is_local_level(c: Seq<Candle>, side: Side, sw: int, i: int) -> bool {
    forall|j: int| i - sw <= j <= i + sw ==> #[trigger] level_le(side, c[i], c[j])
}

/// The local levels at indices `from + sw .. j`, in order.
pub open spec fn local_levels_upto(c: Seq<Candle>, side: Side, from: int, sw: int, j: int) -> Seq<Dec>
    decreases j - (from + sw),
{
    if j <= from + sw {
        Seq::empty()
    } else {
        let prev = local_levels_upto(c, side, from, sw, j - 1);
        if is_local_level(c, side, sw, j - 1) {
            prev.push(level_price_of(side, c[j - 1]))
        } else {
            prev
        }
    }
}

/// The local levels of the candles `from..to`, each judged within that
/// range only.
pub open spec fn local_levels(c: Seq<Candle>, side: Side, from: int, to: int, sw: int) -> Seq<Dec> {
    if to - from < 2 * sw + 1 {
        Seq::empty()
    } else {
        local_levels_upto(c, side, from, sw, to - sw)
    }
}

/// `|price - level| / level <= tolerance`, for a positive level, as
/// `rust_decimal` computes it.
pub open spec fn spec_within_tolerance(price: Dec, level: Dec, tolerance: Dec) -> bool {
    level.units() > 0 && view_units(
        decimal_div(view_abs(decimal_sub(price@, level@).unwrap()), level@).unwrap(),
    ) <= tolerance.units()
}

/// Distance from `price` to `level`.
pub open spec fn level_distance(price: Dec, level: Dec) -> int {
    abs_int(view_units(decimal_sub(price@, level@).unwrap()))
}

/// Of the first `k` levels within tolerance of `price`, the closest one (the
/// first of equally close ones).
pub open spec fn closest_upto(price: Dec, levels: Seq<Dec>, tolerance: Dec, k: int) -> Option<Dec>
    decreases k,
{
    if k <= 0 {
        None
    } else {
        let prev = closest_upto(price, levels, tolerance, k - 1);
        let l = levels[k - 1];
        if !spec_within_tolerance(price, l, tolerance) {
            prev
        } else {
            match prev {
                None => Some(l),
                Some(b) => if level_distance(price, l) < level_distance(price, b) {
                    Some(l)
                } else {
                    Some(b)
                },
            }
        }
    }
}

/// Levels the key-level arithmetic handles: chart prices, zero or at least
/// 2^-32 in magnitude.
pub open spec fn level_ok(d: Dec) -> bool {
    chart_price_ok(d) && not_tiny(d)
}

/// A tolerance the key-level arithmetic handles: at most 2^20.
pub open spec fn tolerance_ok(t: Dec) -> bool {
    t.wf() && within(t, 1048576)
}

/// Whether `|price - level| / level <= tolerance` for a positive level.
fn within_tolerance(price: Dec, level: Dec, tolerance: Dec) -> (r: bool)
    requires
        level_ok(price),
        level_ok(level),
        tolerance_ok(tolerance),
    ensures
        r == spec_within_tolerance(price, level, tolerance),
{
    if level.le(Dec::zero()) {
        return false;
    }
    let d = price.checked_sub(level).unwrap().abs();
    proof {
        let a = abs_int(d.units());
        let b = level.units();
        assert(a * one_units() <= safe_units() * b) by (nonlinear_arith)
            requires
                a <= (2 * max_chart_whole() + 1) * one_units(),
                b * 4294967296 >= one_units(),
                max_chart_whole() == 1099511627776,
                safe_units() == 39614081257132168796771975168 * one_units(),
                one_units() > 0,
                a >= 0,
        ;
    }
    d.checked_div(level).unwrap().le(tolerance)
}

/// The closest level within tolerance of `price` (the first of equally
/// close ones).
fn closest_level(price: Dec, levels: &Vec<Dec>, tolerance: Dec) -> (r: Option<Dec>)
    requires
        level_ok(price),
        tolerance_ok(tolerance),
        forall|i: int| 0 <= i < levels@.len() ==> level_ok(#[trigger] levels@[i]),
    ensures
        r == closest_upto(price, levels@, tolerance, levels@.len() as int),
        r matches Some(l) ==> level_ok(l),
{
    let mut best: Option<Dec> = None;
    let n = levels.len();
    let mut i: usize = 0;
    while i < n
        invariant
            n == levels@.len(),
            i <= n,
            level_ok(price),
            tolerance_ok(tolerance),
            forall|k: int| 0 <= k < levels@.len() ==> level_ok(#[trigger] levels@[k]),
            best == closest_upto(price, levels@, tolerance, i as int),
            best matches Some(b) ==> level_ok(b),
        decreases n - i,
    {
        let l = levels[i];
        if within_tolerance(price, l, tolerance) {
            best = match best {
                None => Some(l),
                Some(b) => {
                    let dl = price.checked_sub(l).unwrap().abs();
                    let db = price.checked_sub(b).unwrap().abs();
                    if dl.lt(db) {
                        Some(l)
                    } else {
                        Some(b)
                    }
                },
            };
        }
        i = i + 1;
    }
    best
}

/// The local lows (Long) or highs (Short) of candles `from..to`.
fn local_levels_in(candles: &Vec<Candle>, side: Side, from: usize, to: usize, sw: usize) -> (r: Vec<Dec>)
    requires
        strategy_candles_ok(candles@),
        from <= to <= candles@.len(),
    ensures
        r@ == local_levels(candles@, side, from as int, to as int, sw as int),
        forall|i: int| 0 <= i < r@.len() ==> level_ok(#[trigger] r@[i]),
{
    let mut levels: Vec<Dec> = Vec::new();
    let len = to - from;
    if sw >= len || len - sw <= sw {
        return levels;
    }
    let mut i = from + sw;
    while i < to - sw
        invariant
            strategy_candles_ok(candles@),
            from <= to <= candles@.len(),
            sw < to - from,
            to - from - sw > sw,
            from + sw <= i <= to - sw,
            levels@ == local_levels_upto(candles@, side, from as int, sw as int, i as int),
            forall|k: int| 0 <= k < levels@.len() ==> level_ok(#[trigger] levels@[k]),
        decreases to - sw - i,
    {
        assert(strategy_candle_ok(candles@[i as int]));
        let v = match side {
            Side::Long => candles[i].low,
            Side::Short => candles[i].high,
        };
        let mut j = i - sw;
        let mut ok = true;
        while j <= i + sw && ok
            invariant
                strategy_candles_ok(candles@),
                from + sw <= i < to - sw,
                to <= candles@.len(),
                i - sw <= j <= i + sw + 1,
                v == level_price_of(side, candles@[i as int]),
                ok == (forall|k: int| i - sw <= k < j ==> #[trigger] level_le(side, candles@[i as int], candles@[k])),
            decreases i + sw + 1 - j,
        {
            assert(strategy_candle_ok(candles@[j as int]));
            let good = match side {
                Side::Long => v.le(candles[j].low),
                Side::Short => v.ge(candles[j].high),
            };
            assert(good == level_le(side, candles@[i as int], candles@[j as int]));
            if !good {
                ok = false;
            }
            j = j + 1;
        }
        assert(ok == is_local_level(candles@, side, sw as int, i as int));
        if ok {
            levels.push(v);
        }
        i = i + 1;
    }
    levels
}

/// Preconditions of a key-level confirmation.
#[derive(Debug, Clone, Copy, PartialEq, Eq, Structural)]
enum SignalPrecondition {
    /// Price interacts with the level
    KeyLevelInteraction,
    /// The candle rejects the level in the entry direction
    ReactionConfirmation,
}

/// Key-level strategy.
#[derive(Debug, Clone, Copy)]
pub struct KeyLevelStrategy {
    /// Number of candles used to find local highs/lows
    pub lookback_window: usize,
    /// Candles on each side required for a local high/low
    pub swing_window: usize,
    /// Allowed relative distance from the level (0.005 = 0.5%)
    pub tolerance: Dec,
}

/// The candle interacts with the level: its low (Long) or high (Short) lies
/// within tolerance of it.
pub open spec fn spec_interacts(side: Side, c: Candle, level: Dec, tolerance: Dec) -> bool {
    spec_within_tolerance(level_price_of(side, c), level, tolerance)
}

/// The candle confirms a reaction: closes in the entry direction and beyond
/// the level, with its low at most `level × (1 + tolerance)` (Long) or its
/// high at least `level × (1 - tolerance)` (Short).
pub open spec fn spec_reacts(side: Side, c: Candle, level: Dec, tolerance: Dec) -> bool {
    match side {
        Side::Long => c.close.units() > c.open.units() && c.close.units() > level.units()
            && c.low.units() <= view_units(
            decimal_mul(level@, decimal_add((1, 0), tolerance@).unwrap()).unwrap(),
        ),
        Side::Short => c.close.units() < c.open.units() && c.close.units() < level.units()
            && c.high.units() >= view_units(
            decimal_mul(level@, decimal_sub((1, 0), tolerance@).unwrap()).unwrap(),
        ),
    }
}

/// Parameters the key-level arithmetic handles.
pub open spec fn key_level_params_ok(s: KeyLevelStrategy) -> bool {
    tolerance_ok(s.tolerance) && s.swing_window < 1073741824
}

impl KeyLevelStrategy {
    /// A strategy with the given windows and tolerance.
    pub fn new(lookback_window: usize, swing_window: usize, tolerance: Dec) -> (r: KeyLevelStrategy)
        ensures
            r.lookback_window == lookback_window,
            r.swing_window == swing_window,
            r.tolerance == tolerance,
    {
        KeyLevelStrategy { lookback_window, swing_window, tolerance }
    }

    /// What evaluating on `side` decides, once the candles match and there
    /// are enough of them: the level closest to the second-to-last candle
    /// among the local levels of the history before it, confirmed by that
    /// candle's interaction and the last candle's reaction.
    pub open spec fn spec_reaction(self, c: Seq<Candle>, side: Side) -> SignalDecision {
        let n = c.len() as int;
        let interaction = c[n - 2];
        let confirmation = c[n - 1];
        let history_end = n - 2;
        let history_start = if history_end >= self.lookback_window {
            history_end - self.lookback_window
        } else {
            0
        };
        let levels = local_levels(c, side, history_start, history_end, self.swing_window as int);
        match closest_upto(level_price_of(side, interaction), levels, self.tolerance, levels.len() as int) {
            None => SignalDecision::NoSignal,
            Some(level) => if spec_interacts(side, interaction, level, self.tolerance)
                && spec_reacts(side, confirmation, level, self.tolerance) {
                SignalDecision::SignalConfirmed {
                    side,
                    reason: SignalReason::KeyLevelReaction {
                        level_kind: match side {
                            Side::Long => KeyLevelKind::Support,
                            Side::Short => KeyLevelKind::Resistance,
                        },
                        level_price: level,
                    },
                    observed_at: confirmation.close_time,
                    reference_price: confirmation.close,
                }
            } else {
                SignalDecision::NoSignal
            },
        }
    }

    /// What `evaluate` decides.
    pub open spec fn spec_evaluate(self, ctx: SignalContext) -> SignalDecision {
        if !spec_candles_match(ctx.candles@, ctx.symbol) || ctx.candles@.len() < self.swing_window
            * 2 + 4 {
            SignalDecision::NoSignal
        } else {
            self.spec_reaction(ctx.candles@, ctx.side)
        }
    }

    /// Confirm a rejection of the closest support (Long) or resistance
    /// (Short) level.
    pub fn evaluate(&self, ctx: SignalContext) -> (r: SignalDecision)
        requires
            strategy_candles_ok(ctx.candles@),
            key_level_params_ok(*self),
        ensures
            r == self.spec_evaluate(ctx),
    {
        if !candles_match_symbol(&ctx.candles, &ctx.symbol) || ctx.candles.len()
            < self.swing_window * 2 + 4 {
            return SignalDecision::NoSignal;
        }
        self.evaluate_reaction(&ctx.candles, ctx.side)
    }

    /// The support (Long) or resistance (Short) reaction.
    fn evaluate_reaction(&self, candles: &Vec<Candle>, side: Side) -> (r: SignalDecision)
        requires
            strategy_candles_ok(candles@),
            key_level_params_ok(*self),
            candles@.len() >= 4,
        ensures
            r == self.spec_reaction(candles@, side),
    {
        let n = candles.len();
        let interaction = &candles[n - 2];
        let confirmation = &candles[n - 1];
        assert(strategy_candle_ok(candles@[n - 2]));
        assert(strategy_candle_ok(candles@[n - 1]));
        let history_end = n - 2;
        let history_start = if history_end >= self.lookback_window {
            history_end - self.lookback_window
        } else {
            0
        };
        let levels = local_levels_in(candles, side, history_start, history_end, self.swing_window);
        let price = match side {
            Side::Long => interaction.low,
            Side::Short => interaction.high,
        };
        let level = match closest_level(price, &levels, self.tolerance) {
            Some(l) => l,
            None => return SignalDecision::NoSignal,
        };
        if !self.precondition_met(SignalPrecondition::KeyLevelInteraction, side, interaction, level)
            || !self.precondition_met(
            SignalPrecondition::ReactionConfirmation,
            side,
            confirmation,
            level,
        ) {
            return SignalDecision::NoSignal;
        }
        SignalDecision::SignalConfirmed {
            side,
            reason: SignalReason::KeyLevelReaction {
                level_kind: match side {
                    Side::Long => KeyLevelKind::Support,
                    Side::Short => KeyLevelKind::Resistance,
                },
                level_price: level,
            },
            observed_at: confirmation.close_time,
            reference_price: confirmation.close,
        }
    }

    fn precondition_met(
        &self,
        precondition: SignalPrecondition,
        side: Side,
        candle: &Candle,
        level: Dec,
    ) -> (r: bool)
        requires
            strategy_candle_ok(*candle),
            level_ok(level),
            tolerance_ok(self.tolerance),
        ensures
            r == match precondition {
                SignalPrecondition::KeyLevelInteraction => spec_interacts(
                    side,
                    *candle,
                    level,
                    self.tolerance,
                ),
                SignalPrecondition::ReactionConfirmation => spec_reacts(
                    side,
                    *candle,
                    level,
                    self.tolerance,
                ),
            },
    {
        match precondition {
            SignalPrecondition::KeyLevelInteraction => match side {
                Side::Long => within_tolerance(candle.low, level, self.tolerance),
                Side::Short => within_tolerance(candle.high, level, self.tolerance),
            },
            SignalPrecondition::ReactionConfirmation => {
                let one = Dec::one();
                let factor = match side {
                    Side::Long => one.checked_add(self.tolerance).unwrap(),
                    Side::Short => one.checked_sub(self.tolerance).unwrap(),
                };
                proof {
                    let a = abs_int(level.units());
                    let b = abs_int(factor.units());
                    assert(a * b <= safe_units() * one_units()) by (nonlinear_arith)
                        requires
                            0 <= a <= max_chart_whole() * one_units(),
                            0 <= b <= 1048578 * one_units(),
                            max_chart_whole() == 1099511627776,
                            safe_units() == 39614081257132168796771975168 * one_units(),
                            one_units() > 0,
                    ;
                }
                let bound = level.checked_mul(factor).unwrap();
                match side {
                    Side::Long => candle.close.gt(candle.open) && candle.close.gt(level)
                        && candle.low.le(bound),
                    Side::Short => candle.close.lt(candle.open) && candle.close.lt(level)
                        && candle.high.ge(bound),
                }
            },
        }
    }
}

impl Default for KeyLevelStrategy {
    /// Lookback 30, swing window 2, tolerance 0.5%.
    fn default() -> (r: KeyLevelStrategy)
        ensures
            r.lookback_window == 30,
            r.swing_window == 2,
            r.tolerance@ == (5int, 3int),
    {
        KeyLevelStrategy::new(30, 2, Dec::new(5, 3))
    }
}

// =============================================================================
// The strategy interface
// =============================================================================
/// A deterministic entry signal strategy: it decides from the supplied
/// context alone. Users of the library may add their own.
pub trait SignalStrategy: Send + Sync {
    /// The strategy's parameters are ones it computes with.
    spec fn params_ok(&self) -> bool;

    /// The decision the strategy takes on a context.
    spec fn decision(&self, ctx: SignalContext) -> SignalDecision;

    /// Evaluate the strategy using only the supplied context.
    fn evaluate(&self, ctx: SignalContext) -> (r: SignalDecision)
        requires
            strategy_candles_ok(ctx.candles@),
            self.params_ok(),
        ensures
            r == self.decision(ctx),
    ;
}

impl SignalStrategy for SmaCrossoverStrategy {
    open spec fn params_ok(&self) -> bool {
        true
    }

    open spec fn decision(&self, ctx: SignalContext) -> SignalDecision {
        self.spec_evaluate(ctx)
    }

    fn evaluate(&self, ctx: SignalContext) -> (r: SignalDecision) {
        SmaCrossoverStrategy::evaluate(self, ctx)
    }
}

impl SignalStrategy for ReversalPatternStrategy {
    open spec fn params_ok(&self) -> bool {
        true
    }

    open spec fn decision(&self, ctx: SignalContext) -> SignalDecision {
        self.spec_evaluate(ctx)
    }

    fn evaluate(&self, ctx: SignalContext) -> (r: SignalDecision) {
        ReversalPatternStrategy::evaluate(self, ctx)
    }
}

impl SignalStrategy for KeyLevelStrategy {
    open spec fn params_ok(&self) -> bool {
        key_level_params_ok(*self)
    }

    open spec fn decision(&self, ctx: SignalContext) -> SignalDecision {
        self.spec_evaluate(ctx)
    }

    fn evaluate(&self, ctx: SignalContext) -> (r: SignalDecision) {
        KeyLevelStrategy::evaluate(self, ctx)
    }
}

// =============================================================================
// Registry
// =============================================================================
/// A registered strategy.
#[derive(Debug, Clone, Copy)]
pub enum RegisteredStrategy {
    /// SMA crossover
    SmaCrossover(SmaCrossoverStrategy),
    /// Reversal patterns
    ReversalPattern(ReversalPatternStrategy),
    /// Key level reaction
    KeyLevel(KeyLevelStrategy),
}

impl RegisteredStrategy {
    /// The parameters the strategy computes with are in range.
    pub open spec fn params_ok(self) -> bool {
        match self {
            RegisteredStrategy::KeyLevel(k) => key_level_params_ok(k),
            _ => true,
        }
    }

    /// What `evaluate` decides.
    pub open spec fn spec_evaluate(self, ctx: SignalContext) -> SignalDecision {
        match self {
            RegisteredStrategy::SmaCrossover(s) => s.spec_evaluate(ctx),
            RegisteredStrategy::ReversalPattern(s) => s.spec_evaluate(ctx),
            RegisteredStrategy::KeyLevel(s) => s.spec_evaluate(ctx),
        }
    }

    /// Evaluate the strategy on the context; the same context always gives
    /// the same decision.
    pub fn evaluate(&self, ctx: SignalContext) -> (r: SignalDecision)
        requires
            strategy_candles_ok(ctx.candles@),
            self.params_ok(),
        ensures
            r == self.spec_evaluate(ctx),
    {
        match self {
            RegisteredStrategy::SmaCrossover(s) => s.evaluate(ctx),
            RegisteredStrategy::ReversalPattern(s) => s.evaluate(ctx),
            RegisteredStrategy::KeyLevel(s) => s.evaluate(ctx),
        }
    }
}

/// The key of a strategy identifier: its name and version.
pub open spec fn id_key(id: StrategyId) -> (Seq<char>, u32) {
    (id.name@, id.version)
}

/// The strategy registered last under `key`, if any.
pub open spec fn registered(entries: Seq<(StrategyId, RegisteredStrategy)>, key: (Seq<char>, u32)) -> Option<
    RegisteredStrategy,
>
    decreases entries.len(),
{
    if entries.len() == 0 {
        None
    } else if id_key(entries.last().0) == key {
        Some(entries.last().1)
    } else {
        registered(entries.drop_last(), key)
    }
}

/// Strategies keyed by stable identifiers; a later registration under the
/// same identifier replaces the earlier one.
#[derive(Debug, Clone)]
pub struct StrategyRegistry {
    /// Registrations, in order
    pub strategies: Vec<(StrategyId, RegisteredStrategy)>,
}

/// The strategy identifier an entry policy resolves to.
pub open spec fn policy_strategy(policy: EntryPolicy) -> Option<(Seq<char>, u32)> {
    match policy {
        EntryPolicy::Immediate => None,
        EntryPolicy::ConfirmedTrend => Some(("sma_crossover"@, 1u32)),
        EntryPolicy::ConfirmedReversal => Some(("reversal_patterns"@, 1u32)),
        EntryPolicy::ConfirmedKeyLevel => Some(("key_level"@, 1u32)),
    }
}

impl StrategyRegistry {
    /// A registry with the production strategies: SMA crossover (9/21),
    /// reversal patterns (3/8) and key level (30/2/0.5%), each at version 1.
    pub fn new() -> (r: StrategyRegistry)
        ensures
            registered(r.strategies@, ("sma_crossover"@, 1u32)) == Some(
                RegisteredStrategy::SmaCrossover(SmaCrossoverStrategy { fast_period: 9, slow_period: 21 }),
            ),
            registered(r.strategies@, ("reversal_patterns"@, 1u32)) == Some(
                RegisteredStrategy::ReversalPattern(
                    ReversalPatternStrategy { directional_move_candles: 3, local_extreme_lookback: 8 },
                ),
            ),
            registered(r.strategies@, ("key_level"@, 1u32)) matches Some(RegisteredStrategy::KeyLevel(k))
                && k.lookback_window == 30 && k.swing_window == 2 && k.tolerance@ == (5int, 3int),
    {
        proof {
            reveal_strlit("sma_crossover");
            reveal_strlit("reversal_patterns");
            reveal_strlit("key_level");
        }
        assert("sma_crossover"@.len() != "key_level"@.len());
        assert("reversal_patterns"@.len() != "key_level"@.len());
        assert("sma_crossover"@.len() != "reversal_patterns"@.len());
        let mut registry = StrategyRegistry::empty();
        registry.register(
            StrategyId::new("sma_crossover", 1),
            RegisteredStrategy::SmaCrossover(SmaCrossoverStrategy::default()),
        );
        registry.register(
            StrategyId::new("reversal_patterns", 1),
            RegisteredStrategy::ReversalPattern(ReversalPatternStrategy::default()),
        );
        registry.register(
            StrategyId::new("key_level", 1),
            RegisteredStrategy::KeyLevel(KeyLevelStrategy::default()),
        );
        proof {
            reveal_strlit("sma_crossover");
            reveal_strlit("reversal_patterns");
            reveal_strlit("key_level");
            assert("sma_crossover"@.len() != "key_level"@.len());
            assert("reversal_patterns"@.len() != "key_level"@.len());
            assert("sma_crossover"@.len() != "reversal_patterns"@.len());
        }
        registry
    }

    /// An empty registry.
    pub fn empty() -> (r: StrategyRegistry)
        ensures
            r.strategies@.len() == 0,
    {
        StrategyRegistry { strategies: Vec::new() }
    }

    /// Register a strategy; returns the one it replaces.
    pub fn register(&mut self, strategy_id: StrategyId, strategy: RegisteredStrategy) -> (r: Option<
        RegisteredStrategy,
    >)
        ensures
            r == registered(old(self).strategies@, id_key(strategy_id)),
            registered(final(self).strategies@, id_key(strategy_id)) == Some(strategy),
            forall|k: (Seq<char>, u32)|
                k != id_key(strategy_id) ==> registered(final(self).strategies@, k) == registered(
                    old(self).strategies@,
                    k,
                ),
    {
        let previous = self.get(&strategy_id);
        let previous = match previous {
            Some(p) => Some(*p),
            None => None,
        };
        self.strategies.push((strategy_id, strategy));
        proof {
            assert(final(self).strategies@.drop_last() =~= old(self).strategies@);
        }
        previous
    }

    /// The strategy registered under the identifier.
    pub fn get(&self, strategy_id: &StrategyId) -> (r: Option<&RegisteredStrategy>)
        ensures
            match r {
                Some(s) => registered(self.strategies@, id_key(*strategy_id)) == Some(*s),
                None => registered(self.strategies@, id_key(*strategy_id)) is None,
            },
    {
        let mut i = self.strategies.len();
        assert(self.strategies@.take(i as int) =~= self.strategies@);
        while i > 0
            invariant
                i <= self.strategies@.len(),
                registered(self.strategies@, id_key(*strategy_id)) == registered(
                    self.strategies@.take(i as int),
                    id_key(*strategy_id),
                ),
            decreases i,
        {
            let entry = &self.strategies[i - 1];
            proof {
                assert(self.strategies@.take(i as int).drop_last() =~= self.strategies@.take(i - 1));
                assert(self.strategies@.take(i as int).last() == self.strategies@[i - 1]);
            }
            if str_eq(entry.0.name.as_str(), strategy_id.name.as_str()) && entry.0.version
                == strategy_id.version {
                return Some(&entry.1);
            }
            i = i - 1;
        }
        assert(self.strategies@.take(0) =~= Seq::<(StrategyId, RegisteredStrategy)>::empty());
        None
    }

    /// The strategy identifier an entry policy resolves to; none for an
    /// immediate entry.
    pub fn strategy_id_for_policy(policy: EntryPolicy) -> (r: Option<StrategyId>)
        ensures
            match r {
                Some(id) => policy_strategy(policy) == Some(id_key(id)),
                None => policy_strategy(policy) is None,
            },
    {
        proof {
            reveal_strlit("sma_crossover");
            reveal_strlit("reversal_patterns");
            reveal_strlit("key_level");
        }
        match policy {
            EntryPolicy::Immediate => None,
            EntryPolicy::ConfirmedTrend => Some(StrategyId::new("sma_crossover", 1)),
            EntryPolicy::ConfirmedReversal => Some(StrategyId::new("reversal_patterns", 1)),
            EntryPolicy::ConfirmedKeyLevel => Some(StrategyId::new("key_level", 1)),
        }
    }
}

impl Default for StrategyRegistry {
    /// The registry with the production strategies.
    fn default() -> (r: StrategyRegistry)
        ensures
            registered(r.strategies@, ("sma_crossover"@, 1u32)) is Some,
            registered(r.strategies@, ("reversal_patterns"@, 1u32)) is Some,
            registered(r.strategies@, ("key_level"@, 1u32)) is Some,
    {
        StrategyRegistry::new()
    }
}

/// Every confirmed policy resolves to a strategy that the production
/// registry holds.
pub proof fn lemma_confirmed_policies_are_registered(r: StrategyRegistry, policy: EntryPolicy)
    requires
        registered(r.strategies@, ("sma_crossover"@, 1u32)) is Some,
        registered(r.strategies@, ("reversal_patterns"@, 1u32)) is Some,
        registered(r.strategies@, ("key_level"@, 1u32)) is Some,
        policy != EntryPolicy::Immediate,
    ensures
        policy_strategy(policy) matches Some(k) && registered(r.strategies@, k) is Some,
{
}

} // verus!
