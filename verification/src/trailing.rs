//! Anchored (1x) trailing stop: the stop follows the favorable extreme at the
//! technical stop distance and never moves against the position.

use vstd::prelude::*;

use crate::decimal::{addable, decimal_add, decimal_sub, view_units, Dec};
use crate::value_objects::{Price, Side};

verus! {

/// A new trailing stop and the favorable extreme that produced it.
#[derive(Debug, Clone, Copy, PartialEq)]
pub struct TrailingStopUpdate {
    /// New trailing stop price
    pub new_stop: Price,
    /// New favorable extreme (peak for Long, low for Short)
    pub new_favorable_extreme: Price,
}

/// The favorable extreme after seeing `current`: the higher of the two for a
/// Long, the lower for a Short (the previous extreme on a tie).
pub open spec fn next_extreme(side: Side, current: Price, extreme: Price) -> Price {
    match side {
        Side::Long => if current.units() > extreme.units() {
            current
        } else {
            extreme
        },
        Side::Short => if current.units() < extreme.units() {
            current
        } else {
            extreme
        },
    }
}

/// The anchored candidate stop for an extreme: `extreme - distance` for a
/// Long, `extreme + distance` for a Short.
pub open spec fn anchored_candidate(side: Side, extreme: Price, distance: Dec) -> (int, int) {
    match side {
        Side::Long => decimal_sub(extreme.0@, distance@).unwrap(),
        Side::Short => decimal_add(extreme.0@, distance@).unwrap(),
    }
}

/// Whether `candidate` is a strictly more favorable stop than `stop`: higher
/// for a Long, lower for a Short.
pub open spec fn more_favorable(side: Side, candidate: int, stop: int) -> bool {
    match side {
        Side::Long => candidate > stop,
        Side::Short => candidate < stop,
    }
}

/// Move the stop to the new favorable extreme minus (Long) or plus (Short)
/// the technical distance, but only when that is strictly more favorable than
/// the current stop; otherwise `None`.
pub fn update_trailing_stop_anchored(
    side: Side,
    current_price: Price,
    favorable_extreme: Price,
    current_trailing_stop: Price,
    tech_stop_distance: Dec,
) -> (r: Option<TrailingStopUpdate>)
    requires
        current_price.wf(),
        favorable_extreme.wf(),
        current_trailing_stop.wf(),
        tech_stop_distance.wf(),
        addable(current_price.0, tech_stop_distance),
        addable(favorable_extreme.0, tech_stop_distance),
    ensures
        ({
            let extreme = next_extreme(side, current_price, favorable_extreme);
            let candidate = anchored_candidate(side, extreme, tech_stop_distance);
            &&& r is Some <==> more_favorable(
                side,
                view_units(candidate),
                current_trailing_stop.units(),
            )
            &&& r matches Some(u) ==> {
                &&& u.new_stop.wf()
                &&& u.new_stop.0@ == candidate
                &&& u.new_favorable_extreme == extreme
            }
        }),
        // The stop only ever moves in the position's favor, and the favorable
        // extreme never moves against it.
        r matches Some(u) ==> more_favorable(
            side,
            u.new_stop.units(),
            current_trailing_stop.units(),
        ),
        r matches Some(u) ==> match side {
            Side::Long => u.new_favorable_extreme.units() >= favorable_extreme.units()
                && u.new_favorable_extreme.units() >= current_price.units(),
            Side::Short => u.new_favorable_extreme.units() <= favorable_extreme.units()
                && u.new_favorable_extreme.units() <= current_price.units(),
        },
{
    match side {
        Side::Long => {
            let new_peak = if current_price.as_decimal().gt(favorable_extreme.as_decimal()) {
                current_price
            } else {
                favorable_extreme
            };
            let candidate_stop = new_peak.as_decimal().checked_sub(tech_stop_distance).unwrap();
            if candidate_stop.gt(current_trailing_stop.as_decimal()) {
                Some(
                    TrailingStopUpdate {
                        new_stop: Price::from_decimal(candidate_stop),
                        new_favorable_extreme: new_peak,
                    },
                )
            } else {
                None
            }
        },
        Side::Short => {
            let new_low = if current_price.as_decimal().lt(favorable_extreme.as_decimal()) {
                current_price
            } else {
                favorable_extreme
            };
            let candidate_stop = new_low.as_decimal().checked_add(tech_stop_distance).unwrap();
            if candidate_stop.lt(current_trailing_stop.as_decimal()) {
                Some(
                    TrailingStopUpdate {
                        new_stop: Price::from_decimal(candidate_stop),
                        new_favorable_extreme: new_low,
                    },
                )
            } else {
                None
            }
        },
    }
}

/// Whether the stop is hit: price at or below it (Long), at or above it
/// (Short).
pub open spec fn stop_hit(side: Side, price: int, stop: int) -> bool {
    match side {
        Side::Long => price <= stop,
        Side::Short => price >= stop,
    }
}

/// Whether the trailing stop is hit (the position should exit).
pub fn is_trailing_stop_hit(side: Side, current_price: Price, trailing_stop: Price) -> (r: bool)
    requires
        current_price.wf(),
        trailing_stop.wf(),
    ensures
        r == stop_hit(side, current_price.units(), trailing_stop.units()),
{
    match side {
        Side::Long => current_price.as_decimal().le(trailing_stop.as_decimal()),
        Side::Short => current_price.as_decimal().ge(trailing_stop.as_decimal()),
    }
}

} // verus!
