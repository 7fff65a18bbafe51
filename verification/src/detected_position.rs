//! Safety net for positions opened outside this system (for example by hand
//! on the exchange): a fixed 2% safety stop and its hit test.

use vstd::prelude::*;

use crate::decimal::{
    abs_int, decimal_div, decimal_mul, decimal_sub, one_units, safe_units, view_abs, view_units,
    Dec,
};
use crate::ids::{now_millis, Timestamp};
use crate::trailing::stop_hit;
use crate::value_objects::{max_price_whole, percent_of, price_in_range, spec_percent_of, Price, Quantity, Side, Symbol};

verus! {

/// A position found on the exchange that was not opened through this system.
#[derive(Debug, Clone, PartialEq)]
pub struct DetectedPosition {
    /// Exchange-assigned identifier
    pub binance_position_id: String,
    /// Trading symbol
    pub symbol: Symbol,
    /// Position side
    pub side: Side,
    /// Average entry price
    pub entry_price: Price,
    /// Current quantity
    pub quantity: Quantity,
    /// When it was first detected
    pub detected_at: Timestamp,
    /// Last time it was verified
    pub last_verified_at: Timestamp,
    /// The safety stop, once calculated
    pub calculated_stop: Option<CalculatedStop>,
}

/// A stop calculated for a detected position.
#[derive(Debug, Clone, Copy, PartialEq)]
pub struct CalculatedStop {
    /// The stop price
    pub stop_price: Price,
    /// Absolute distance from entry to stop
    pub distance: Dec,
    /// Distance as a percentage of entry
    pub distance_pct: Dec,
    /// Method used
    pub method: StopMethod,
    /// When it was calculated
    pub calculated_at: Timestamp,
}

/// How a stop was calculated.
#[derive(Debug, Clone, Copy, PartialEq, Eq, Structural)]
pub enum StopMethod {
    /// Fixed 2% from entry (safety net default)
    Fixed2Percent,
    /// Volatility-based (ATR), not implemented
    VolatilityBased,
    /// User-configured, not implemented
    UserConfigured,
}

/// The 2% safety stop: `entry × 98 / 100` (Long) or `entry × 102 / 100`
/// (Short), or the entry itself when that is not a positive price.
pub open spec fn safety_stop(side: Side, entry: Price) -> (int, int) {
    let v = match side {
        Side::Long => spec_percent_of(entry.0@, (98, 0)).unwrap(),
        Side::Short => spec_percent_of(entry.0@, (102, 0)).unwrap(),
    };
    if view_units(v) > 0 {
        v
    } else {
        entry.0@
    }
}

/// `|entry - stop|`.
pub open spec fn stop_distance(entry: Price, stop: (int, int)) -> (int, int) {
    view_abs(decimal_sub(entry.0@, stop).unwrap())
}

/// `distance / entry × 100`.
pub open spec fn stop_distance_pct(entry: Price, stop: (int, int)) -> (int, int) {
    decimal_mul(decimal_div(stop_distance(entry, stop), entry.0@).unwrap(), (100, 0)).unwrap()
}

impl DetectedPosition {
    /// A newly detected position, stamped now, without a stop.
    pub fn new(
        binance_position_id: String,
        symbol: Symbol,
        side: Side,
        entry_price: Price,
        quantity: Quantity,
    ) -> (r: DetectedPosition)
        ensures
            r.binance_position_id == binance_position_id,
            r.symbol == symbol,
            r.side == side,
            r.entry_price == entry_price,
            r.quantity == quantity,
            r.detected_at == r.last_verified_at,
            r.calculated_stop is None,
    {
        let now = now_millis();
        DetectedPosition {
            binance_position_id,
            symbol,
            side,
            entry_price,
            quantity,
            detected_at: now,
            last_verified_at: now,
            calculated_stop: None,
        }
    }

    /// Calculate and record the fixed 2% safety stop: below entry for a
    /// Long, above it for a Short.
    pub fn calculate_safety_stop(&mut self) -> (r: CalculatedStop)
        requires
            price_in_range(old(self).entry_price),
            old(self).entry_price.units() > 0,
        ensures
            r.stop_price.0@ == safety_stop(old(self).side, old(self).entry_price),
            r.distance@ == stop_distance(old(self).entry_price, r.stop_price.0@),
            r.distance_pct@ == stop_distance_pct(old(self).entry_price, r.stop_price.0@),
            r.method == StopMethod::Fixed2Percent,
            *final(self) == (DetectedPosition { calculated_stop: Some(r), ..*old(self) }),
    {
        let entry = self.entry_price.as_decimal();
        let factor = match self.side {
            Side::Long => Dec::from_int(98),
            Side::Short => Dec::from_int(102),
        };
        let stop_value = percent_of(entry, factor, Ghost(max_price_whole()), Ghost(102int));
        let stop_price = if stop_value.gt(Dec::zero()) {
            Price(stop_value)
        } else {
            self.entry_price
        };
        let stop = stop_price.as_decimal();
        let distance = entry.checked_sub(stop).unwrap().abs();
        proof {
            let a = abs_int(distance.units());
            let e = entry.units();
            assert(a * one_units() <= safe_units() * e) by (nonlinear_arith)
                requires
                    a <= (104 * max_price_whole() + 3) * one_units(),
                    e * 4294967296 >= one_units(),
                    max_price_whole() == 1099511627776,
                    safe_units() == 39614081257132168796771975168 * one_units(),
                    one_units() > 0,
                    a >= 0,
            ;
        }
        let ratio = distance.checked_div(entry).unwrap();
        let hundred = Dec::from_int(100);
        proof {
            let q = abs_int(ratio.units());
            let a = abs_int(distance.units());
            let e = entry.units();
            assert(q * abs_int(hundred.units()) <= safe_units() * one_units()) by (nonlinear_arith)
                requires
                    q * e <= a * one_units() + one_units() * e,
                    a <= (104 * max_price_whole() + 3) * one_units(),
                    e * 4294967296 >= one_units(),
                    abs_int(hundred.units()) == 100 * one_units(),
                    max_price_whole() == 1099511627776,
                    safe_units() == 39614081257132168796771975168 * one_units(),
                    one_units() > 0,
                    q >= 0,
                    e > 0,
            ;
        }
        let distance_pct = ratio.checked_mul(hundred).unwrap();
        let calculated_stop = CalculatedStop {
            stop_price,
            distance,
            distance_pct,
            method: StopMethod::Fixed2Percent,
            calculated_at: now_millis(),
        };
        self.calculated_stop = Some(calculated_stop);
        calculated_stop
    }

    /// Whether the price has hit the stop: `None` without a stop, else at or
    /// below it (Long) or at or above it (Short).
    pub fn is_stop_hit(&self, current_price: Price) -> (r: Option<bool>)
        requires
            current_price.wf(),
            self.calculated_stop matches Some(s) ==> s.stop_price.wf(),
        ensures
            match self.calculated_stop {
                None => r is None,
                Some(s) => r == Some(
                    stop_hit(self.side, current_price.units(), s.stop_price.units()),
                ),
            },
    {
        match &self.calculated_stop {
            None => None,
            Some(stop) => Some(stop.is_hit(self.side, current_price)),
        }
    }

    /// Record that the position was verified now.
    pub fn mark_verified(&mut self)
        ensures
            *final(self) == (DetectedPosition {
                last_verified_at: final(self).last_verified_at,
                ..*old(self)
            }),
    {
        self.last_verified_at = now_millis();
    }
}

impl CalculatedStop {
    /// Whether the price has hit this stop for a position on `side`.
    pub fn is_hit(&self, side: Side, current_price: Price) -> (r: bool)
        requires
            current_price.wf(),
            self.stop_price.wf(),
        ensures
            r == stop_hit(side, current_price.units(), self.stop_price.units()),
    {
        match side {
            Side::Long => current_price.as_decimal().le(self.stop_price.as_decimal()),
            Side::Short => current_price.as_decimal().ge(self.stop_price.as_decimal()),
        }
    }
}

} // verus!
