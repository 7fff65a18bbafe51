//! Discrete step trailing stop (the "span" technique).
//!
//! The span is the technical stop distance measured at entry. The stop moves
//! only in whole multiples of the span, anchored to the entry price: for a
//! Long with entry 95,000 and span 1,500 the stop sits at 93,500, moves to
//! 95,000 once the peak reaches 96,500, to 96,500 at 98,000, and so on. It
//! never moves against the position and never reacts to a partial step.

use vstd::prelude::*;

use crate::decimal::{
    abs_int, decimal_add, decimal_div, decimal_mul, decimal_sub, one_units,
    safe_units, view_units, Dec,
};
use crate::value_objects::{Price, Side};

pub use crate::trailing::{is_trailing_stop_hit, next_extreme, more_favorable, TrailingStopUpdate};

verus! {

/// The new stop, as `rust_decimal` computes it, after the favorable extreme
/// `peak` (Long) or `low` (Short): the number of complete spans between entry
/// and the extreme, `floor(|extreme - entry| / span)`, moves the initial stop
/// (`entry - span` for a Long, `entry + span` for a Short) by that many spans.
/// `None` when the extreme is not beyond entry by at least one full span, or
/// when the resulting stop is not strictly more favorable than the current one.
pub open spec fn discrete_stop(
    side: Side,
    extreme: Price,
    current_trailing_stop: Price,
    entry_price: Price,
    span: Dec,
) -> Option<(int, int)> {
    let profit = match side {
        Side::Long => decimal_sub(extreme.0@, entry_price.0@).unwrap(),
        Side::Short => decimal_sub(entry_price.0@, extreme.0@).unwrap(),
    };
    let completed = view_units(decimal_div(profit, span@).unwrap()) / one_units();
    let moved = decimal_mul((completed, 0), span@).unwrap();
    let candidate = match side {
        Side::Long => decimal_add(decimal_sub(entry_price.0@, span@).unwrap(), moved).unwrap(),
        Side::Short => decimal_sub(decimal_add(entry_price.0@, span@).unwrap(), moved).unwrap(),
    };
    if span.units() <= 0 || view_units(profit) <= 0 || completed <= 0 {
        None
    } else if more_favorable(side, view_units(candidate), current_trailing_stop.units()) {
        Some(candidate)
    } else {
        None
    }
}

/// The step arithmetic for a price `p` stays within the decimal range: the
/// profit `p - entry` fits, the number of spans in it is representable for a
/// positive span, and the stop moved by those spans fits.
pub open spec fn step_in_range(p: Price, entry: Price, span: Dec) -> bool {
    let c = one_units();
    let a = abs_int(p.units());
    let e = abs_int(entry.units());
    let b = abs_int(span.units());
    &&& a + 2 * e + 2 * b + 4 * c <= safe_units()
    &&& span.units() > 0 ==> (a + e + c) * c <= safe_units() * span.units()
}

/// Move the stop in whole span steps anchored to entry. The favorable
/// extreme is updated first (higher price for a Long, lower for a Short);
/// the stop moves only when that extreme has completed a new span step
/// beyond the current stop. A span that is not positive gives `None`.
pub fn update_trailing_stop_discrete(
    side: Side,
    current_price: Price,
    favorable_extreme: Price,
    current_trailing_stop: Price,
    entry_price: Price,
    span: Dec,
) -> (r: Option<TrailingStopUpdate>)
    requires
        current_price.wf(),
        favorable_extreme.wf(),
        current_trailing_stop.wf(),
        entry_price.wf(),
        span.wf(),
        step_in_range(current_price, entry_price, span),
        step_in_range(favorable_extreme, entry_price, span),
    ensures
        ({
            let extreme = next_extreme(side, current_price, favorable_extreme);
            let stop = discrete_stop(side, extreme, current_trailing_stop, entry_price, span);
            &&& r is Some <==> stop is Some
            &&& r matches Some(u) ==> {
                &&& u.new_stop.wf()
                &&& Some(u.new_stop.0@) == stop
                &&& u.new_favorable_extreme == extreme
            }
        }),
        // The stop only ever moves in the position's favor.
        r matches Some(u) ==> more_favorable(
            side,
            u.new_stop.units(),
            current_trailing_stop.units(),
        ),
{
    let zero = Dec::zero();
    if span.le(zero) {
        return None;
    }
    let extreme = match side {
        Side::Long => if current_price.as_decimal().gt(favorable_extreme.as_decimal()) {
            current_price
        } else {
            favorable_extreme
        },
        Side::Short => if current_price.as_decimal().lt(favorable_extreme.as_decimal()) {
            current_price
        } else {
            favorable_extreme
        },
    };
    let profit_distance = match side {
        Side::Long => extreme.as_decimal().checked_sub(entry_price.as_decimal()),
        Side::Short => entry_price.as_decimal().checked_sub(extreme.as_decimal()),
    };
    let profit_distance = profit_distance.unwrap();
    if profit_distance.le(zero) {
        return None;
    }
    let ghost c = one_units();
    let ghost b = span.units();
    let ghost d = profit_distance.units();
    let ghost a = abs_int(extreme.units());
    let ghost e = abs_int(entry_price.units());
    proof {
        assert(d * c <= safe_units() * b) by (nonlinear_arith)
            requires
                0 < d <= a + e + c,
                (a + e + c) * c <= safe_units() * b,
                c > 0,
        ;
    }
    let quotient = profit_distance.checked_div(span).unwrap();
    let completed_spans = quotient.floor();
    if completed_spans.le(zero) {
        return None;
    }
    let initial_stop = match side {
        Side::Long => entry_price.as_decimal().checked_sub(span),
        Side::Short => entry_price.as_decimal().checked_add(span),
    };
    let initial_stop = initial_stop.unwrap();
    proof {
        let q = quotient.units();
        let k = completed_spans.units();
        assert(0 <= k <= q) by (nonlinear_arith)
            requires
                k == (q / c) * c,
                q >= 0,
                c > 0,
                k > 0,
        ;
        assert(k * b <= (d + b) * c) by (nonlinear_arith)
            requires
                0 <= k <= q,
                q * b <= d * c + c * b,
                b > 0,
                c > 0,
        ;
        assert(d + b <= safe_units());
        assert((d + b) * c <= safe_units() * c) by (nonlinear_arith)
            requires
                d + b <= safe_units(),
                c > 0,
        ;
    }
    let moved = completed_spans.checked_mul(span);
    proof {
        let k = completed_spans.units();
        if let Some(m) = moved {
            let mm = abs_int(m.units());
            assert(mm <= d + b + c) by (nonlinear_arith)
                requires
                    mm * c <= k * b + c * c,
                    k * b <= (d + b) * c,
                    c > 0,
            ;
        }
    }
    let moved = moved.unwrap();
    let candidate_stop = match side {
        Side::Long => initial_stop.checked_add(moved),
        Side::Short => initial_stop.checked_sub(moved),
    };
    let candidate_stop = candidate_stop.unwrap();
    let better = match side {
        Side::Long => candidate_stop.gt(current_trailing_stop.as_decimal()),
        Side::Short => candidate_stop.lt(current_trailing_stop.as_decimal()),
    };
    if better {
        Some(
            TrailingStopUpdate {
                new_stop: Price::from_decimal(candidate_stop),
                new_favorable_extreme: extreme,
            },
        )
    } else {
        None
    }
}

} // verus!
