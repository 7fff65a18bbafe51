//! Technical stop analyzer: where the stop belongs on the chart.
//!
//! The stop is a price level derived from chart analysis, never a percentage
//! of entry. In priority order:
//!
//! 1. Swing points: swing lows (Long) or swing highs (Short) beyond entry,
//!    clustered when they lie within a tolerance of each other, ordered from
//!    the closest to entry; the `support_level_n`-th one is the stop (fewer
//!    levels: the farthest one found).
//! 2. ATR fallback: with no level beyond entry, the stop is
//!    `entry ∓ atr_multiplier × ATR(atr_period)`, accepted only when its
//!    distance from entry lies within the configured range.
//!
//! Pure computation: the caller fetches the candles.

use vstd::prelude::*;

use crate::decimal::{
    abs_int, addable, decimal_add, decimal_div, decimal_mul, decimal_sub, lemma_units_bound,
    not_tiny, one_units, safe_units, view_abs, view_units, view_wf, within, Dec,
};
use crate::market_data::Candle;
use crate::value_objects::{price_in_range, Price, Side};

verus! {

// =============================================================================
// Configuration
// =============================================================================
/// Tuning parameters of the analyzer.
#[derive(Debug, Clone, Copy)]
pub struct TechnicalStopConfig {
    /// Minimum number of candles required (default 100)
    pub min_candles: usize,
    /// Candles on each side for swing detection (default 2)
    pub swing_lookback: usize,
    /// Which level to use as the stop, counted from entry (default 2)
    pub support_level_n: usize,
    /// Clustering tolerance as a fraction of entry (default 0.005)
    pub level_tolerance: Dec,
    /// ATR period for the fallback (default 14)
    pub atr_period: usize,
    /// ATR multiplier for the fallback (default 1.5)
    pub atr_multiplier: Dec,
    /// Minimum stop distance as a fraction of entry (default 0.001)
    pub min_stop_distance_pct: Dec,
    /// Maximum stop distance as a fraction of entry (default 0.10)
    pub max_stop_distance_pct: Dec,
}

impl Default for TechnicalStopConfig {
    /// 100 candles, lookback 2, second level, 0.5% tolerance, ATR(14) × 1.5,
    /// distance between 0.1% and 10%.
    fn default() -> (r: TechnicalStopConfig)
        ensures
            r.min_candles == 100,
            r.swing_lookback == 2,
            r.support_level_n == 2,
            r.level_tolerance@ == (5int, 3int),
            r.atr_period == 14,
            r.atr_multiplier@ == (15int, 1int),
            r.min_stop_distance_pct@ == (1int, 3int),
            r.max_stop_distance_pct@ == (10int, 2int),
    {
        TechnicalStopConfig {
            min_candles: 100,
            swing_lookback: 2,
            support_level_n: 2,
            level_tolerance: Dec::new(5, 3),
            atr_period: 14,
            atr_multiplier: Dec::new(15, 1),
            min_stop_distance_pct: Dec::new(1, 3),
            max_stop_distance_pct: Dec::new(10, 2),
        }
    }
}

// =============================================================================
// Output types
// =============================================================================
/// How the stop level was derived.
#[derive(Debug, Clone, Copy, PartialEq, Eq, Structural)]
pub enum TechnicalStopMethod {
    /// The `level_n`-th swing level counted from entry
    SwingPoint {
        /// Level used, counted from 1
        level_n: usize,
    },
    /// `entry ∓ atr_multiplier × ATR(atr_period)`
    AtrFallback,
}

/// Confidence in the stop level.
#[derive(Debug, Clone, Copy, PartialEq, Eq, Structural)]
pub enum StopConfidence {
    /// At least `support_level_n` levels found
    High,
    /// Fewer levels found; the farthest one was used
    Medium,
    /// No level found; ATR fallback
    Low,
}

/// Result of the analysis; the stop is an absolute price.
#[derive(Debug, Clone)]
pub struct TechnicalStopAnalysis {
    /// Chart-derived stop price
    pub stop_price: Price,
    /// Method used
    pub method: TechnicalStopMethod,
    /// Confidence
    pub confidence: StopConfidence,
    /// Positive levels found beyond entry, closest first
    pub detected_levels: Vec<Price>,
}

/// Errors of the analysis.
#[derive(Debug, Clone, PartialEq)]
pub enum TechnicalStopError {
    /// Not enough candles
    InsufficientData {
        /// Candles required
        required: usize,
        /// Candles given
        got: usize,
    },
    /// The stop is not a positive price, or the ATR stop lies outside the
    /// allowed distance range
    AtrStopOutOfRange {
        /// The rejected stop
        stop_price: Dec,
        /// Entry price
        entry_price: Dec,
        /// Minimum distance, in percent
        min_pct: Dec,
        /// Maximum distance, in percent
        max_pct: Dec,
    },
}

// =============================================================================
// Specification
// =============================================================================
/// Largest chart price, in whole units, the analysis arithmetic is proved for
/// (2^40).
pub open spec fn max_chart_whole() -> int {
    1099511627776
}

/// A chart price the analysis handles.
pub open spec fn chart_price_ok(d: Dec) -> bool {
    d.wf() && within(d, max_chart_whole())
}

/// The candles' highs, lows and closes are chart prices, and there are fewer
/// than 2^32 candles.
pub open spec fn candles_ok(c: Seq<Candle>) -> bool {
    &&& c.len() < 4294967296
    &&& forall|i: int|
        0 <= i < c.len() ==> chart_price_ok((#[trigger] c[i]).high) && chart_price_ok(c[i].low)
            && chart_price_ok(c[i].close)
}

/// The views of a sequence of decimals.
pub open spec fn views(s: Seq<Dec>) -> Seq<(int, int)> {
    s.map_values(|d: Dec| d@)
}

/// The price a swing point is made of: the low (Long) or the high (Short).
pub open spec fn level_of(side: Side, c: Candle) -> Dec {
    match side {
        Side::Long => c.low,
        Side::Short => c.high,
    }
}

/// Whether `a` lies strictly beyond `b`: below it (Long), above it (Short).
pub open spec fn beyond(side: Side, a: int, b: int) -> bool {
    match side {
        Side::Long => a < b,
        Side::Short => a > b,
    }
}

/// The candle at `i` lies strictly beyond the candles `k` before and `k`
/// after it.
pub open spec fn window_ok(c: Seq<Candle>, side: Side, i: int, k: int) -> bool {
    &&& beyond(side, level_of(side, c[i]).units(), level_of(side, c[i - k]).units())
    &&& beyond(side, level_of(side, c[i]).units(), level_of(side, c[i + k]).units())
}

/// The candle at `i` is a swing point: strictly beyond every candle within
/// `lookback` on each side.
pub open spec fn is_swing(c: Seq<Candle>, side: Side, lookback: int, i: int) -> bool {
    forall|k: int| 1 <= k <= lookback ==> #[trigger] window_ok(c, side, i, k)
}

/// The swing levels at indices `lookback..j`, in index order.
pub open spec fn swings_upto(c: Seq<Candle>, side: Side, lookback: int, j: int) -> Seq<Dec>
    decreases j - lookback,
{
    if j <= lookback {
        Seq::empty()
    } else {
        let prev = swings_upto(c, side, lookback, j - 1);
        if is_swing(c, side, lookback, j - 1) {
            prev.push(level_of(side, c[j - 1]))
        } else {
            prev
        }
    }
}

/// All swing levels: candles within `lookback` of either end are skipped.
pub open spec fn swing_levels(c: Seq<Candle>, side: Side, lookback: int) -> Seq<Dec> {
    if c.len() < 2 * lookback + 1 {
        Seq::empty()
    } else {
        swings_upto(c, side, lookback, c.len() - lookback)
    }
}

/// The levels that lie strictly beyond entry, in order.
pub open spec fn beyond_entry(s: Seq<(int, int)>, side: Side, entry: (int, int)) -> Seq<(int, int)>
    decreases s.len(),
{
    if s.len() == 0 {
        Seq::empty()
    } else {
        let prev = beyond_entry(s.drop_last(), side, entry);
        if beyond(side, view_units(s.last()), view_units(entry)) {
            prev.push(s.last())
        } else {
            prev
        }
    }
}

/// Whether `prev` may stay before `x`: not greater (ascending) or not
/// smaller (descending).
pub open spec fn keeps_before(desc: bool, prev: (int, int), x: (int, int)) -> bool {
    if desc {
        view_units(prev) >= view_units(x)
    } else {
        view_units(prev) <= view_units(x)
    }
}

/// `x` inserted after the last element that may stay before it.
pub open spec fn insert_sorted(s: Seq<(int, int)>, x: (int, int), desc: bool) -> Seq<(int, int)>
    decreases s.len(),
{
    if s.len() == 0 || keeps_before(desc, s.last(), x) {
        s.push(x)
    } else {
        insert_sorted(s.drop_last(), x, desc).push(s.last())
    }
}

/// Stable sort by value, ascending or descending: equal values keep their
/// order.
pub open spec fn sorted_by_value(s: Seq<(int, int)>, desc: bool) -> Seq<(int, int)>
    decreases s.len(),
{
    if s.len() == 0 {
        Seq::empty()
    } else {
        insert_sorted(sorted_by_value(s.drop_last(), desc), s.last(), desc)
    }
}

/// A cluster: the running sum of its levels and their count.
pub type ClusterView = ((int, int), nat);

/// The cluster's center: the mean of its levels.
pub open spec fn cluster_center(cl: ClusterView) -> (int, int) {
    decimal_div(cl.0, (cl.1 as int, 0)).unwrap()
}

/// Whether `level` lies within `tol` of the cluster's center.
pub open spec fn fits(cl: ClusterView, level: (int, int), tol: (int, int)) -> bool {
    abs_int(view_units(decimal_sub(level, cluster_center(cl)).unwrap())) <= view_units(tol)
}

/// The first cluster from `j` on that `level` fits.
pub open spec fn first_fit(cls: Seq<ClusterView>, level: (int, int), tol: (int, int), j: int) -> Option<
    int,
>
    decreases cls.len() - j,
{
    if j >= cls.len() {
        None
    } else if fits(cls[j], level, tol) {
        Some(j)
    } else {
        first_fit(cls, level, tol, j + 1)
    }
}

/// `level` joins the first cluster it fits, or starts a new one.
pub open spec fn add_level(cls: Seq<ClusterView>, level: (int, int), tol: (int, int)) -> Seq<
    ClusterView,
> {
    match first_fit(cls, level, tol, 0) {
        Some(j) => cls.update(j, (decimal_add(cls[j].0, level).unwrap(), cls[j].1 + 1)),
        None => cls.push((decimal_add((0, 0), level).unwrap(), 1)),
    }
}

/// The clusters of the levels, taken in order.
pub open spec fn clusters_of(levels: Seq<(int, int)>, tol: (int, int)) -> Seq<ClusterView>
    decreases levels.len(),
{
    if levels.len() == 0 {
        Seq::empty()
    } else {
        add_level(clusters_of(levels.drop_last(), tol), levels.last(), tol)
    }
}

/// The absolute clustering tolerance: `entry × tolerance` for a positive
/// entry, else the tolerance itself.
pub open spec fn tolerance_abs(entry: (int, int), tolerance: (int, int)) -> (int, int) {
    if view_units(entry) > 0 {
        decimal_mul(entry, tolerance).unwrap()
    } else {
        tolerance
    }
}

/// The cluster centers of the levels, sorted ascending first, in the order
/// the clusters were formed.
pub open spec fn clustered(levels: Seq<(int, int)>, entry: (int, int), tolerance: (int, int)) -> Seq<
    (int, int),
> {
    let cls = clusters_of(sorted_by_value(levels, false), tolerance_abs(entry, tolerance));
    Seq::new(cls.len(), |i: int| cluster_center(cls[i]))
}

/// The levels beyond entry, clustered, closest to entry first.
pub open spec fn ordered_levels(
    c: Seq<Candle>,
    entry: Price,
    side: Side,
    config: TechnicalStopConfig,
) -> Seq<(int, int)> {
    let levels = beyond_entry(
        views(swing_levels(c, side, config.swing_lookback as int)),
        side,
        entry.0@,
    );
    sorted_by_value(clustered(levels, entry.0@, config.level_tolerance@), side is Long)
}

/// The positive levels, in order.
pub open spec fn positive_levels(s: Seq<(int, int)>) -> Seq<(int, int)>
    decreases s.len(),
{
    if s.len() == 0 {
        Seq::empty()
    } else {
        let prev = positive_levels(s.drop_last());
        if view_units(s.last()) > 0 {
            prev.push(s.last())
        } else {
            prev
        }
    }
}

/// The true range of candle `c` after `prev`: the largest of high - low,
/// |high - previous close| and |low - previous close|.
pub open spec fn true_range(prev: Candle, c: Candle) -> (int, int) {
    let hl = decimal_sub(c.high@, c.low@).unwrap();
    let hc = view_abs(decimal_sub(c.high@, prev.close@).unwrap());
    let lc = view_abs(decimal_sub(c.low@, prev.close@).unwrap());
    let m = if view_units(hl) > view_units(hc) {
        hl
    } else {
        hc
    };
    if view_units(m) > view_units(lc) {
        m
    } else {
        lc
    }
}

/// The true range accounts for gaps: it is at least the candle's own range
/// `high - low`, at least `|high - previous close|` and at least
/// `|low - previous close|`, and it is one of these three.
pub proof fn lemma_true_range_covers_gaps(prev: Candle, c: Candle)
    ensures
        ({
            let tr = view_units(true_range(prev, c));
            let own = decimal_sub(c.high@, c.low@).unwrap();
            let gap_high = view_abs(decimal_sub(c.high@, prev.close@).unwrap());
            let gap_low = view_abs(decimal_sub(c.low@, prev.close@).unwrap());
            &&& tr >= view_units(own)
            &&& tr >= view_units(gap_high)
            &&& tr >= view_units(gap_low)
            &&& (true_range(prev, c) == own || true_range(prev, c) == gap_high || true_range(prev, c)
                == gap_low)
        }),
{
}

/// The sum of the true ranges of the candles `start..end`, added in order
/// from zero.
pub open spec fn range_sum(c: Seq<Candle>, start: int, end: int) -> (int, int)
    decreases end - start,
{
    if end <= start {
        (0, 0)
    } else {
        decimal_add(range_sum(c, start, end - 1), true_range(c[end - 2], c[end - 1])).unwrap()
    }
}

/// The average true range of the last `period` candles (zero when there are
/// not `period + 1` candles).
pub open spec fn average_true_range(c: Seq<Candle>, period: int) -> (int, int) {
    if c.len() < period + 1 {
        (0, 0)
    } else {
        decimal_div(range_sum(c, c.len() - period, c.len() as int), (period, 0)).unwrap()
    }
}

/// The ATR fallback stop: `entry - multiplier × ATR` (Long) or
/// `entry + multiplier × ATR` (Short).
pub open spec fn atr_stop(c: Seq<Candle>, entry: Price, side: Side, config: TechnicalStopConfig) -> (
    int,
    int,
) {
    let m = decimal_mul(
        config.atr_multiplier@,
        average_true_range(c, config.atr_period as int),
    ).unwrap();
    match side {
        Side::Long => decimal_sub(entry.0@, m).unwrap(),
        Side::Short => decimal_add(entry.0@, m).unwrap(),
    }
}

/// The ATR stop's distance from entry as a fraction of entry (zero for an
/// entry that is not positive).
pub open spec fn atr_distance(stop: (int, int), entry: Price) -> (int, int) {
    if entry.units() > 0 {
        decimal_div(view_abs(decimal_sub(stop, entry.0@).unwrap()), entry.0@).unwrap()
    } else {
        (0, 0)
    }
}

/// The error for a rejected stop.
pub open spec fn out_of_range(
    stop: (int, int),
    entry: Price,
    config: TechnicalStopConfig,
    e: TechnicalStopError,
) -> bool {
    e matches TechnicalStopError::AtrStopOutOfRange { stop_price, entry_price, min_pct, max_pct }
        && stop_price@ == stop && entry_price == entry.0 && Some(min_pct@) == decimal_mul(
        config.min_stop_distance_pct@,
        (100, 0),
    ) && Some(max_pct@) == decimal_mul(config.max_stop_distance_pct@, (100, 0))
}

/// The inputs the analysis arithmetic is proved for.
pub open spec fn analysis_inputs_ok(
    c: Seq<Candle>,
    entry: Price,
    config: TechnicalStopConfig,
) -> bool {
    &&& candles_ok(c)
    &&& price_in_range(entry)
    &&& config.level_tolerance.wf() && within(config.level_tolerance, max_chart_whole())
    &&& config.atr_multiplier.wf() && within(config.atr_multiplier, 65536)
    &&& config.min_stop_distance_pct.wf() && within(config.min_stop_distance_pct, max_chart_whole())
    &&& config.max_stop_distance_pct.wf() && within(config.max_stop_distance_pct, max_chart_whole())
    &&& config.support_level_n >= 1
    &&& 1 <= config.atr_period < usize::MAX
}

/// How many candles the analysis needs: `max(min_candles, atr_period + 1)`.
pub open spec fn required_candles(config: TechnicalStopConfig) -> int {
    if config.min_candles >= config.atr_period + 1 {
        config.min_candles as int
    } else {
        config.atr_period + 1
    }
}

/// What `analyze` returns.
pub open spec fn analysis_result(
    c: Seq<Candle>,
    entry: Price,
    side: Side,
    config: TechnicalStopConfig,
    r: Result<TechnicalStopAnalysis, TechnicalStopError>,
) -> bool {
    let min_required = required_candles(config);
    let ordered = ordered_levels(c, entry, side, config);
    let n = config.support_level_n as int;
    let levels_ok = (r matches Ok(a) ==> a.detected_levels@.map_values(|p: Price| p.0@)
        == positive_levels(ordered));
    if c.len() < min_required {
        r == Err::<TechnicalStopAnalysis, TechnicalStopError>(
            TechnicalStopError::InsufficientData { required: min_required as usize, got: c.len() as usize },
        )
    } else if ordered.len() > 0 {
        let (stop, method, confidence) = if ordered.len() >= n {
            (ordered[n - 1], TechnicalStopMethod::SwingPoint { level_n: n as usize }, StopConfidence::High)
        } else {
            (
                ordered.last(),
                TechnicalStopMethod::SwingPoint { level_n: ordered.len() as usize },
                StopConfidence::Medium,
            )
        };
        &&& (r is Ok <==> view_units(stop) > 0)
        &&& (r matches Ok(a) ==> a.stop_price.0@ == stop && a.method == method && a.confidence
            == confidence)
        &&& (r matches Err(e) ==> out_of_range(stop, entry, config, e))
        &&& levels_ok
    } else {
        let stop = atr_stop(c, entry, side, config);
        let d = view_units(atr_distance(stop, entry));
        let in_range = config.min_stop_distance_pct.units() <= d
            && d <= config.max_stop_distance_pct.units();
        &&& (r is Ok <==> in_range && view_units(stop) > 0)
        &&& (r matches Ok(a) ==> a.stop_price.0@ == stop && a.method
            == TechnicalStopMethod::AtrFallback && a.confidence == StopConfidence::Low)
        &&& (r matches Err(e) ==> out_of_range(stop, entry, config, e))
        &&& levels_ok
    }
}


// =============================================================================
// Helpers
// =============================================================================
/// The swing lows (Long) or swing highs (Short), in candle order.
pub fn detect_swing_levels(candles: &Vec<Candle>, side: Side, lookback: usize) -> (r: Vec<Dec>)
    requires
        candles_ok(candles@),
    ensures
        r@ == swing_levels(candles@, side, lookback as int),
        r@.len() <= candles@.len(),
        forall|i: int| 0 <= i < r@.len() ==> chart_price_ok(#[trigger] r@[i]),
{
    let len = candles.len();
    let mut levels: Vec<Dec> = Vec::new();
    if lookback >= len || len - lookback <= lookback {
        return levels;
    }
    let ghost c = candles@;
    let mut i: usize = lookback;
    while i < len - lookback
        invariant
            c == candles@,
            candles_ok(c),
            len == c.len(),
            lookback < len,
            len - lookback > lookback,
            lookback <= i <= len - lookback,
            levels@ == swings_upto(c, side, lookback as int, i as int),
            levels@.len() <= i,
            forall|k: int| 0 <= k < levels@.len() ==> chart_price_ok(#[trigger] levels@[k]),
        decreases len - lookback - i,
    {
        let candidate = match side {
            Side::Long => candles[i].low,
            Side::Short => candles[i].high,
        };
        let mut is_extreme = true;
        let mut offset: usize = 1;
        while offset <= lookback && is_extreme
            invariant
                c == candles@,
                candles_ok(c),
                len == c.len(),
                lookback <= i < len - lookback,
                1 <= offset <= lookback + 1,
                candidate == level_of(side, c[i as int]),
                is_extreme == (forall|k: int| 1 <= k < offset ==> #[trigger] window_ok(c, side, i as int, k)),
            decreases lookback + 1 - offset,
        {
            let (before, after) = match side {
                Side::Long => (candles[i - offset].low, candles[i + offset].low),
                Side::Short => (candles[i - offset].high, candles[i + offset].high),
            };
            let ok = match side {
                Side::Long => candidate.lt(before) && candidate.lt(after),
                Side::Short => candidate.gt(before) && candidate.gt(after),
            };
            assert(ok == window_ok(c, side, i as int, offset as int));
            if ok {
                offset = offset + 1;
            } else {
                is_extreme = false;
                offset = offset + 1;
            }
        }
        assert(is_extreme == is_swing(c, side, lookback as int, i as int));
        if is_extreme {
            levels.push(candidate);
        }
        i = i + 1;
    }
    levels
}

/// The levels strictly beyond entry, in order.
fn levels_beyond(levels: &Vec<Dec>, side: Side, entry: Dec) -> (r: Vec<Dec>)
    requires
        entry.wf(),
        forall|i: int| 0 <= i < levels@.len() ==> chart_price_ok(#[trigger] levels@[i]),
    ensures
        views(r@) == beyond_entry(views(levels@), side, entry@),
        r@.len() <= levels@.len(),
        forall|i: int| 0 <= i < r@.len() ==> chart_price_ok(#[trigger] r@[i]),
{
    let mut out: Vec<Dec> = Vec::new();
    let n = levels.len();
    let mut i: usize = 0;
    while i < n
        invariant
            n == levels@.len(),
            i <= n,
            entry.wf(),
            forall|k: int| 0 <= k < levels@.len() ==> chart_price_ok(#[trigger] levels@[k]),
            views(out@) == beyond_entry(views(levels@.take(i as int)), side, entry@),
            out@.len() <= i,
            forall|k: int| 0 <= k < out@.len() ==> chart_price_ok(#[trigger] out@[k]),
        decreases n - i,
    {
        let x = levels[i];
        proof {
            assert(views(levels@.take(i + 1)).drop_last() =~= views(levels@.take(i as int)));
            assert(views(levels@.take(i + 1)).last() == x@);
        }
        let keep = match side {
            Side::Long => x.lt(entry),
            Side::Short => x.gt(entry),
        };
        if keep {
            out.push(x);
            assert(views(out@) =~= views(out@.drop_last()).push(x@));
        }
        i = i + 1;
    }
    assert(levels@.take(n as int) =~= levels@);
    out
}

proof fn lemma_insert_at(s: Seq<(int, int)>, x: (int, int), desc: bool, j: int)
    requires
        0 <= j <= s.len(),
        forall|k: int| j <= k < s.len() ==> !keeps_before(desc, #[trigger] s[k], x),
        j == 0 || keeps_before(desc, s[j - 1], x),
    ensures
        insert_sorted(s, x, desc) == s.insert(j, x),
    decreases s.len(),
{
    if j == s.len() {
        assert(s.insert(j, x) =~= s.push(x));
    } else {
        assert(!keeps_before(desc, s[s.len() - 1], x));
        let t = s.drop_last();
        assert forall|k: int| j <= k < t.len() implies !keeps_before(desc, #[trigger] t[k], x) by {
            assert(t[k] == s[k]);
        }
        lemma_insert_at(t, x, desc, j);
        assert(t.insert(j, x).push(s.last()) =~= s.insert(j, x));
    }
}

/// Whether `prev` may stay before `x` in the sort.
fn stays_before(desc: bool, prev: Dec, x: Dec) -> (r: bool)
    requires
        prev.wf(),
        x.wf(),
    ensures
        r == keeps_before(desc, prev@, x@),
{
    if desc {
        prev.ge(x)
    } else {
        prev.le(x)
    }
}

/// Stable insertion sort by value, ascending or descending.
fn sort_levels(levels: &Vec<Dec>, desc: bool) -> (r: Vec<Dec>)
    requires
        forall|i: int| 0 <= i < levels@.len() ==> (#[trigger] levels@[i]).wf(),
    ensures
        views(r@) == sorted_by_value(views(levels@), desc),
        r@.len() == levels@.len(),
        forall|i: int| 0 <= i < r@.len() ==> (#[trigger] r@[i]).wf(),
        forall|i: int| 0 <= i < r@.len() ==> exists|k: int| 0 <= k < levels@.len() && #[trigger] r@[i] == levels@[k],
{
    let mut out: Vec<Dec> = Vec::new();
    let n = levels.len();
    let mut i: usize = 0;
    while i < n
        invariant
            n == levels@.len(),
            i <= n,
            out@.len() == i,
            forall|k: int| 0 <= k < levels@.len() ==> (#[trigger] levels@[k]).wf(),
            views(out@) == sorted_by_value(views(levels@.take(i as int)), desc),
            forall|k: int| 0 <= k < out@.len() ==> (#[trigger] out@[k]).wf(),
            forall|k: int| 0 <= k < out@.len() ==> exists|m: int| 0 <= m < levels@.len() && #[trigger] out@[k] == levels@[m],
        decreases n - i,
    {
        let x = levels[i];
        let mut j = out.len();
        while j > 0 && !stays_before(desc, out[j - 1], x)
            invariant
                j <= out@.len(),
                x.wf(),
                forall|k: int| 0 <= k < out@.len() ==> (#[trigger] out@[k]).wf(),
                forall|k: int| j <= k < out@.len() ==> !keeps_before(desc, #[trigger] views(out@)[k], x@),
            decreases j,
        {
            j = j - 1;
        }
        proof {
            let v = views(out@);
            assert(views(levels@.take(i + 1)).drop_last() =~= views(levels@.take(i as int)));
            assert(views(levels@.take(i + 1)).last() == x@);
            lemma_insert_at(v, x@, desc, j as int);
        }
        let ghost before = out@;
        out.insert(j, x);
        proof {
            assert(views(out@) =~= views(before).insert(j as int, x@));
            assert forall|k: int| 0 <= k < out@.len() implies exists|m: int| 0 <= m < levels@.len() && #[trigger] out@[k] == levels@[m] by {
                if k < j {
                    assert(out@[k] == before[k]);
                } else if k == j {
                    assert(out@[k] == levels@[i as int]);
                } else {
                    assert(out@[k] == before[k - 1]);
                }
            }
        }
        i = i + 1;
    }
    assert(levels@.take(n as int) =~= levels@);
    out
}


/// The views of clusters held as (running sum, count).
pub open spec fn cluster_views(v: Seq<(Dec, usize)>) -> Seq<ClusterView> {
    v.map_values(|p: (Dec, usize)| (p.0@, p.1 as nat))
}

/// Bound on a cluster's running sum per member: `2^40 + 1` whole units.
pub open spec fn member_bound() -> int {
    (max_chart_whole() + 1) * one_units()
}

/// The clusters' sums are in range, with at least one member each, and no
/// more than `count` members and `count * member_bound()` in magnitude.
pub open spec fn clusters_bounded(v: Seq<(Dec, usize)>, count: int) -> bool {
    forall|k: int|
        0 <= k < v.len() ==> {
            &&& (#[trigger] v[k]).0.wf()
            &&& 1 <= v[k].1 <= count
            &&& abs_int(v[k].0.units()) <= v[k].1 * member_bound()
        }
}

/// The mean of a cluster, and its bound.
fn cluster_mean(sum: Dec, count: usize) -> (r: Dec)
    requires
        sum.wf(),
        1 <= count < 4294967296,
        abs_int(sum.units()) <= count * member_bound(),
    ensures
        r.wf(),
        r@ == cluster_center((sum@, count as nat)),
        abs_int(r.units()) <= member_bound() + one_units(),
{
    let d = Dec::from_int(count as i64);
    proof {
        let a = abs_int(sum.units());
        let c = one_units();
        assert(a * c <= safe_units() * abs_int(d.units())) by (nonlinear_arith)
            requires
                a <= count * member_bound(),
                member_bound() == 1099511627777 * c,
                abs_int(d.units()) == count * c,
                safe_units() == 39614081257132168796771975168 * c,
                c > 0,
                count >= 1,
                a >= 0,
        ;
    }
    let r = sum.checked_div(d).unwrap();
    proof {
        let a = abs_int(sum.units());
        let c = one_units();
        let q = abs_int(r.units());
        assert(q <= member_bound() + c) by (nonlinear_arith)
            requires
                q * (count * c) <= a * c + c * (count * c),
                a <= count * member_bound(),
                member_bound() == 1099511627777 * c,
                c > 0,
                count >= 1,
                q >= 0,
        ;
    }
    r
}

/// Cluster the levels (sorted ascending first) around running means and
/// return the means, in the order the clusters were formed.
pub fn cluster_levels(levels: &Vec<Dec>, entry: Dec, tolerance: Dec) -> (r: Vec<Dec>)
    requires
        levels@.len() < 4294967296,
        forall|i: int| 0 <= i < levels@.len() ==> chart_price_ok(#[trigger] levels@[i]),
        chart_price_ok(entry),
        chart_price_ok(tolerance),
    ensures
        views(r@) == clustered(views(levels@), entry@, tolerance@),
        forall|i: int| 0 <= i < r@.len() ==> (#[trigger] r@[i]).wf(),
{
    let sorted = sort_levels(levels, false);
    let zero = Dec::zero();
    proof {
        assert forall|k: int| 0 <= k < sorted@.len() implies chart_price_ok(#[trigger] sorted@[k]) by {
            let m = choose|m: int| 0 <= m < levels@.len() && sorted@[k] == levels@[m];
            assert(chart_price_ok(levels@[m]));
        }
        let a = abs_int(entry.units());
        let b = abs_int(tolerance.units());
        assert(a * b <= safe_units() * one_units()) by (nonlinear_arith)
            requires
                0 <= a <= max_chart_whole() * one_units(),
                0 <= b <= max_chart_whole() * one_units(),
                safe_units() == 39614081257132168796771975168 * one_units(),
                max_chart_whole() == 1099511627776,
                one_units() > 0,
        ;
    }
    let tol_abs = if entry.gt(zero) {
        entry.checked_mul(tolerance).unwrap()
    } else {
        tolerance
    };
    let ghost tol = tol_abs@;
    assert(tol == tolerance_abs(entry@, tolerance@));
    let ghost lv = views(sorted@);
    let n = sorted.len();
    let mut clusters: Vec<(Dec, usize)> = Vec::new();
    let mut i: usize = 0;
    while i < n
        invariant
            n == sorted@.len(),
            n < 4294967296,
            i <= n,
            lv == views(sorted@),
            forall|k: int| 0 <= k < sorted@.len() ==> chart_price_ok(#[trigger] sorted@[k]),
            tol_abs.wf(),
            tol == tol_abs@,
            zero.wf(),
            zero@ == (0int, 0int),
            cluster_views(clusters@) == clusters_of(lv.take(i as int), tol),
            clusters_bounded(clusters@, i as int),
        decreases n - i,
    {
        let level = sorted[i];
        let ghost before = clusters@;
        proof {
            assert(lv.take(i + 1).drop_last() =~= lv.take(i as int));
            assert(lv.take(i + 1).last() == level@);
        }
        let mut j: usize = 0;
        let mut placed = false;
        while j < clusters.len() && !placed
            invariant
                chart_price_ok(level),
                tol_abs.wf(),
                tol == tol_abs@,
                i < n,
                n < 4294967296,
                clusters_bounded(before, i as int),
                j <= before.len(),
                !placed ==> clusters@ == before,
                !placed ==> first_fit(cluster_views(before), level@, tol, 0) == first_fit(
                    cluster_views(before),
                    level@,
                    tol,
                    j as int,
                ),
                placed ==> cluster_views(clusters@) == add_level(cluster_views(before), level@, tol),
                placed ==> clusters_bounded(clusters@, i + 1),
                placed ==> clusters@.len() == before.len(),
            decreases before.len() - j,
        {
            let (sum, count) = clusters[j];
            let center = cluster_mean(sum, count);
            let diff = level.checked_sub(center).unwrap().abs();
            if diff.le(tol_abs) {
                proof {
                    assert(fits(cluster_views(before)[j as int], level@, tol));
                    assert(first_fit(cluster_views(before), level@, tol, j as int) == Some(j as int));
                    let c = one_units();
                    let a = abs_int(sum.units());
                    let l = abs_int(level.units());
                    assert(a + l <= safe_units()) by (nonlinear_arith)
                        requires
                            a <= count * member_bound(),
                            count <= i,
                            i < 4294967296,
                            l <= max_chart_whole() * c,
                            member_bound() == 1099511627777 * c,
                            safe_units() == 39614081257132168796771975168 * c,
                            c > 0,
                    ;
                }
                let new_sum = sum.checked_add(level).unwrap();
                proof {
                    let c = one_units();
                    assert(abs_int(new_sum.units()) <= (count + 1) * member_bound()) by (nonlinear_arith)
                        requires
                            abs_int(new_sum.units()) <= abs_int(sum.units()) + abs_int(level.units()) + c,
                            abs_int(sum.units()) <= count * member_bound(),
                            abs_int(level.units()) <= max_chart_whole() * c,
                            member_bound() == (max_chart_whole() + 1) * c,
                    ;
                }
                clusters.set(j, (new_sum, count + 1));
                proof {
                    assert(cluster_views(clusters@) =~= cluster_views(before).update(
                        j as int,
                        (decimal_add(cluster_views(before)[j as int].0, level@).unwrap(), cluster_views(before)[j as int].1 + 1),
                    ));
                }
                placed = true;
                j = j + 1;
            } else {
                proof {
                    assert(!fits(cluster_views(before)[j as int], level@, tol));
                }
                j = j + 1;
            }
        }
        if !placed {
            let first = zero.checked_add(level).unwrap();
            clusters.push((first, 1));
            proof {
                assert(abs_int(first.units()) <= member_bound());
                assert forall|k: int| 0 <= k < clusters@.len() implies {
                    &&& (#[trigger] clusters@[k]).0.wf()
                    &&& 1 <= clusters@[k].1 <= i + 1
                    &&& abs_int(clusters@[k].0.units()) <= clusters@[k].1 * member_bound()
                } by {
                    if k < before.len() {
                        assert(clusters@[k] == before[k]);
                    }
                }
                assert(first_fit(cluster_views(before), level@, tol, j as int) is None);
                assert(cluster_views(clusters@) =~= cluster_views(before).push(
                    (decimal_add((0, 0), level@).unwrap(), 1),
                ));
            }
        }
        i = i + 1;
    }
    assert(lv.take(n as int) =~= lv);
    let ghost cls = cluster_views(clusters@);
    let mut out: Vec<Dec> = Vec::new();
    let mut k: usize = 0;
    while k < clusters.len()
        invariant
            k <= clusters@.len(),
            n < 4294967296,
            clusters_bounded(clusters@, n as int),
            cls == cluster_views(clusters@),
            out@.len() == k,
            forall|m: int| 0 <= m < k ==> (#[trigger] out@[m])@ == cluster_center(cls[m]),
            forall|m: int| 0 <= m < k ==> (#[trigger] out@[m]).wf(),
        decreases clusters@.len() - k,
    {
        let (sum, count) = clusters[k];
        out.push(cluster_mean(sum, count));
        k = k + 1;
    }
    assert(views(out@) =~= Seq::new(cls.len(), |m: int| cluster_center(cls[m])));
    out
}

/// The positive levels as prices, in order.
fn positive_prices(levels: &Vec<Dec>) -> (r: Vec<Price>)
    requires
        forall|i: int| 0 <= i < levels@.len() ==> (#[trigger] levels@[i]).wf(),
    ensures
        r@.map_values(|p: Price| p.0@) == positive_levels(views(levels@)),
{
    let mut out: Vec<Price> = Vec::new();
    let n = levels.len();
    let mut i: usize = 0;
    while i < n
        invariant
            n == levels@.len(),
            i <= n,
            forall|k: int| 0 <= k < levels@.len() ==> (#[trigger] levels@[k]).wf(),
            out@.map_values(|p: Price| p.0@) == positive_levels(views(levels@.take(i as int))),
        decreases n - i,
    {
        let x = levels[i];
        proof {
            assert(views(levels@.take(i + 1)).drop_last() =~= views(levels@.take(i as int)));
            assert(views(levels@.take(i + 1)).last() == x@);
        }
        match Price::new(x) {
            Ok(p) => {
                let ghost prev = out@;
                out.push(p);
                assert(out@.map_values(|p: Price| p.0@) =~= prev.map_values(|p: Price| p.0@).push(x@));
            },
            Err(_) => {},
        }
        i = i + 1;
    }
    assert(levels@.take(n as int) =~= levels@);
    out
}

/// Bound on one true range: `2^41 + 1` whole units.
pub open spec fn range_bound() -> int {
    (2 * max_chart_whole() + 1) * one_units()
}

/// The average true range of the last `period` candles; zero when there are
/// not `period + 1` candles.
pub fn compute_atr(candles: &Vec<Candle>, period: usize) -> (r: Dec)
    requires
        candles_ok(candles@),
        period >= 1,
    ensures
        r.wf(),
        r@ == average_true_range(candles@, period as int),
        abs_int(r.units()) <= 4398046511104 * one_units(),
{
    let len = candles.len();
    if len <= period {
        return Dec::zero();
    }
    let ghost c = candles@;
    let start = len - period;
    let mut total = Dec::zero();
    let mut i: usize = start;
    while i < len
        invariant
            c == candles@,
            candles_ok(c),
            len == c.len(),
            1 <= start <= i <= len,
            start == len - period,
            total.wf(),
            total@ == range_sum(c, start as int, i as int),
            abs_int(total.units()) <= (i - start) * (range_bound() + one_units()),
        decreases len - i,
    {
        let prev_close = candles[i - 1].close;
        let high = candles[i].high;
        let low = candles[i].low;
        let hl = high.checked_sub(low).unwrap();
        let hc = high.checked_sub(prev_close).unwrap().abs();
        let lc = low.checked_sub(prev_close).unwrap().abs();
        let tr = hl.max(hc).max(lc);
        assert(tr@ == true_range(c[i - 1], c[i as int]));
        proof {
            let k = i - start;
            let t = abs_int(total.units());
            let u = abs_int(tr.units());
            let b = range_bound() + one_units();
            assert(t + u <= safe_units()) by (nonlinear_arith)
                requires
                    t <= k * b,
                    u <= range_bound(),
                    0 <= k < 4294967296,
                    range_bound() == 2199023255553 * one_units(),
                    b == range_bound() + one_units(),
                    safe_units() == 39614081257132168796771975168 * one_units(),
                    one_units() > 0,
            ;
        }
        let next = total.checked_add(tr).unwrap();
        proof {
            let k = i - start;
            let b = range_bound() + one_units();
            assert(abs_int(next.units()) <= (k + 1) * b) by (nonlinear_arith)
                requires
                    abs_int(next.units()) <= abs_int(total.units()) + abs_int(tr.units()) + one_units(),
                    abs_int(total.units()) <= k * b,
                    abs_int(tr.units()) <= range_bound(),
                    b == range_bound() + one_units(),
            ;
        }
        total = next;
        i = i + 1;
    }
    let p = Dec::from_int(period as i64);
    proof {
        let t = abs_int(total.units());
        let b = range_bound() + one_units();
        let cc = one_units();
        assert(t * cc <= safe_units() * abs_int(p.units())) by (nonlinear_arith)
            requires
                t <= period * b,
                b == 2199023255554 * cc,
                abs_int(p.units()) == period * cc,
                safe_units() == 39614081257132168796771975168 * cc,
                cc > 0,
                period >= 1,
                t >= 0,
        ;
    }
    let r = total.checked_div(p).unwrap();
    proof {
        let t = abs_int(total.units());
        let b = range_bound() + one_units();
        let cc = one_units();
        let q = abs_int(r.units());
        assert(q <= 4398046511104 * cc) by (nonlinear_arith)
            requires
                q * (period * cc) <= t * cc + cc * (period * cc),
                t <= period * b,
                b == 2199023255554 * cc,
                cc > 0,
                period >= 1,
                q >= 0,
        ;
    }
    r
}

// =============================================================================
// Analyzer
// =============================================================================
/// The pure technical stop analyzer.
pub struct TechnicalStopAnalyzer;

impl TechnicalStopAnalyzer {
    /// Compute the chart-derived stop for a position entering at
    /// `entry_price` on `side`, from candles oldest first.
    pub fn analyze(
        candles: &Vec<Candle>,
        entry_price: Price,
        side: Side,
        config: &TechnicalStopConfig,
    ) -> (r: Result<TechnicalStopAnalysis, TechnicalStopError>)
        requires
            config.atr_period < usize::MAX,
            candles@.len() >= required_candles(*config) ==> analysis_inputs_ok(
                candles@,
                entry_price,
                *config,
            ),
        ensures
            analysis_result(candles@, entry_price, side, *config, r),
    {
        let min_required = if config.min_candles >= config.atr_period + 1 {
            config.min_candles
        } else {
            config.atr_period + 1
        };
        if candles.len() < min_required {
            return Err(
                TechnicalStopError::InsufficientData { required: min_required, got: candles.len() },
            );
        }
        let swings = detect_swing_levels(candles, side, config.swing_lookback);
        let entry_val = entry_price.as_decimal();
        let filtered = levels_beyond(&swings, side, entry_val);
        let clusters = cluster_levels(&filtered, entry_val, config.level_tolerance);
        let ordered = sort_levels(&clusters, side == Side::Long);
        let detected_levels = positive_prices(&ordered);
        let n = config.support_level_n;
        if ordered.len() > 0 {
            let (stop_val, method, confidence) = if ordered.len() >= n {
                (ordered[n - 1], TechnicalStopMethod::SwingPoint { level_n: n }, StopConfidence::High)
            } else {
                (
                    ordered[ordered.len() - 1],
                    TechnicalStopMethod::SwingPoint { level_n: ordered.len() },
                    StopConfidence::Medium,
                )
            };
            return match Price::new(stop_val) {
                Ok(stop_price) => Ok(
                    TechnicalStopAnalysis { stop_price, method, confidence, detected_levels },
                ),
                Err(_) => Err(out_of_range_error(stop_val, entry_val, config)),
            };
        }
        let atr = compute_atr(candles, config.atr_period);
        proof {
            lemma_units_bound(atr);
        }
        let ghost a = abs_int(atr.units());
        let ghost mm = abs_int(config.atr_multiplier.units());
        proof {
            assert(mm * a <= safe_units() * one_units()) by (nonlinear_arith)
                requires
                    mm <= 65536 * one_units(),
                    a <= 4398046511104 * one_units(),
                    mm >= 0,
                    a >= 0,
                    safe_units() == 39614081257132168796771975168 * one_units(),
                    one_units() > 0,
            ;
        }
        let moved = config.atr_multiplier.checked_mul(atr).unwrap();
        proof {
            let b = abs_int(moved.units());
            assert(b <= 288230376151711745 * one_units()) by (nonlinear_arith)
                requires
                    b * one_units() <= mm * a + one_units() * one_units(),
                    mm <= 65536 * one_units(),
                    a <= 4398046511104 * one_units(),
                    mm >= 0,
                    a >= 0,
                    one_units() > 0,
            ;
        }
        let stop_val = match side {
            Side::Long => entry_val.checked_sub(moved).unwrap(),
            Side::Short => entry_val.checked_add(moved).unwrap(),
        };
        let zero = Dec::zero();
        let distance_pct = if entry_val.gt(zero) {
            let diff = stop_val.checked_sub(entry_val).unwrap().abs();
            proof {
                let d = abs_int(diff.units());
                let e = entry_val.units();
                assert(d * one_units() <= safe_units() * e) by (nonlinear_arith)
                    requires
                        d <= 576460752303423488 * one_units(),
                        e * 4294967296 >= one_units(),
                        safe_units() == 39614081257132168796771975168 * one_units(),
                        max_chart_whole() == 1099511627776,
                        one_units() > 0,
                        d >= 0,
                ;
            }
            diff.checked_div(entry_val).unwrap()
        } else {
            zero
        };
        if distance_pct.lt(config.min_stop_distance_pct) || distance_pct.gt(
            config.max_stop_distance_pct,
        ) {
            return Err(out_of_range_error(stop_val, entry_val, config));
        }
        match Price::new(stop_val) {
            Ok(stop_price) => Ok(
                TechnicalStopAnalysis {
                    stop_price,
                    method: TechnicalStopMethod::AtrFallback,
                    confidence: StopConfidence::Low,
                    detected_levels,
                },
            ),
            Err(_) => Err(out_of_range_error(stop_val, entry_val, config)),
        }
    }
}

/// The error for a rejected stop, with the distance bounds in percent.
fn out_of_range_error(stop_price: Dec, entry_price: Dec, config: &TechnicalStopConfig) -> (r:
    TechnicalStopError)
    requires
        config.min_stop_distance_pct.wf() && within(config.min_stop_distance_pct, max_chart_whole()),
        config.max_stop_distance_pct.wf() && within(config.max_stop_distance_pct, max_chart_whole()),
    ensures
        r matches TechnicalStopError::AtrStopOutOfRange { stop_price: s, entry_price: e, min_pct, max_pct }
            && s == stop_price && e == entry_price && Some(min_pct@) == decimal_mul(
            config.min_stop_distance_pct@,
            (100, 0),
        ) && Some(max_pct@) == decimal_mul(config.max_stop_distance_pct@, (100, 0)),
{
    let hundred = Dec::from_int(100);
    proof {
        let a = abs_int(config.min_stop_distance_pct.units());
        let b = abs_int(config.max_stop_distance_pct.units());
        assert(a * abs_int(hundred.units()) <= safe_units() * one_units()) by (nonlinear_arith)
            requires
                0 <= a <= max_chart_whole() * one_units(),
                abs_int(hundred.units()) == 100 * one_units(),
                safe_units() == 39614081257132168796771975168 * one_units(),
                max_chart_whole() == 1099511627776,
                one_units() > 0,
        ;
        assert(b * abs_int(hundred.units()) <= safe_units() * one_units()) by (nonlinear_arith)
            requires
                0 <= b <= max_chart_whole() * one_units(),
                abs_int(hundred.units()) == 100 * one_units(),
                safe_units() == 39614081257132168796771975168 * one_units(),
                max_chart_whole() == 1099511627776,
                one_units() > 0,
        ;
    }
    TechnicalStopError::AtrStopOutOfRange {
        stop_price,
        entry_price,
        min_pct: config.min_stop_distance_pct.checked_mul(hundred).unwrap(),
        max_pct: config.max_stop_distance_pct.checked_mul(hundred).unwrap(),
    }
}

} // verus!
