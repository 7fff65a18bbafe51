//! Exchange-agnostic market data: trade ticks, candles, order book snapshots
//! and the unified feed event.

use vstd::prelude::*;

use crate::decimal::{abs_int, addable, decimal_add, decimal_div, decimal_sub, one_units, safe_units, view_units, Dec};
use crate::ids::{now_millis, Timestamp};
use crate::text::owned;
use crate::value_objects::{split_pair_from, Symbol};

verus! {

// =============================================================================
// Tick
// =============================================================================
/// A single trade from an exchange.
#[derive(Debug, Clone, PartialEq)]
pub struct Tick {
    /// Trading symbol
    pub symbol: Symbol,
    /// Price at which the trade occurred
    pub price: Dec,
    /// Quantity traded
    pub quantity: Dec,
    /// Timestamp of the trade (exchange time)
    pub timestamp: Timestamp,
    /// Trade ID (unique identifier from exchange)
    pub trade_id: String,
}

impl Tick {
    /// A new tick.
    pub fn new(symbol: Symbol, price: Dec, quantity: Dec, timestamp: Timestamp, trade_id: String) -> (r:
        Tick)
        ensures
            r == (Tick { symbol, price, quantity, timestamp, trade_id }),
    {
        Tick { symbol, price, quantity, timestamp, trade_id }
    }

    /// A tick for tests: the pair parsed from text, whole price and
    /// quantity, stamped now, with trade ID "test".
    pub fn test_tick(symbol: &str, price: i64, quantity: i64) -> (r: Tick)
        requires
            split_pair_from(symbol@, 0) is Some,
        ensures
            split_pair_from(symbol@, 0) == Some((r.symbol.base@, r.symbol.quote@)),
            r.price.wf() && r.price.mantissa == price && r.price.scale == 0,
            r.quantity.wf() && r.quantity.mantissa == quantity && r.quantity.scale == 0,
            r.trade_id@ == "test"@,
    {
        let sym = match Symbol::from_pair(symbol) {
            Ok(s) => s,
            Err(_) => Symbol { base: owned(""), quote: owned("") },
        };
        Tick::new(sym, Dec::from_int(price), Dec::from_int(quantity), now_millis(), owned("test"))
    }
}

// =============================================================================
// Candle
// =============================================================================
/// OHLCV candlestick data.
#[derive(Debug, PartialEq)]
pub struct Candle {
    /// Trading symbol
    pub symbol: Symbol,
    /// Open price
    pub open: Dec,
    /// High price
    pub high: Dec,
    /// Low price
    pub low: Dec,
    /// Close price
    pub close: Dec,
    /// Total volume traded
    pub volume: Dec,
    /// Number of trades in this candle
    pub trades: u64,
    /// Candle open time
    pub open_time: Timestamp,
    /// Candle close time
    pub close_time: Timestamp,
}

impl Clone for Candle {
    fn clone(&self) -> (r: Candle)
        ensures
            r == *self,
    {
        Candle {
            symbol: self.symbol.clone(),
            open: self.open,
            high: self.high,
            low: self.low,
            close: self.close,
            volume: self.volume,
            trades: self.trades,
            open_time: self.open_time,
            close_time: self.close_time,
        }
    }
}

/// `(high + low) / 2` as `rust_decimal` computes it.
pub open spec fn spec_midpoint(a: Dec, b: Dec) -> (int, int) {
    decimal_div(decimal_add(a@, b@).unwrap(), (2, 0)).unwrap()
}

/// `(a + b) / 2`, for numbers whose sum cannot overflow.
fn half_sum(a: Dec, b: Dec) -> (r: Dec)
    requires
        a.wf(),
        b.wf(),
        addable(a, b),
    ensures
        r.wf(),
        r@ == spec_midpoint(a, b),
        a.units() >= 0 && b.units() >= 0 ==> r.units() >= 0,
{
    let s = a.checked_add(b).unwrap();
    let two = Dec::from_int(2);
    proof {
        crate::decimal::lemma_units_bound(s);
        assert(abs_int(s.units()) * one_units() <= safe_units() * abs_int(two.units()))
            by (nonlinear_arith)
            requires
                abs_int(s.units()) <= 0xFFFF_FFFF_FFFF_FFFF_FFFF_FFFF * one_units(),
                abs_int(two.units()) == 2 * one_units(),
                safe_units() == 39614081257132168796771975168 * one_units(),
                one_units() > 0,
        ;
    }
    s.checked_div(two).unwrap()
}

impl Candle {
    /// A new candle.
    pub fn new(
        symbol: Symbol,
        open: Dec,
        high: Dec,
        low: Dec,
        close: Dec,
        volume: Dec,
        trades: u64,
        open_time: Timestamp,
        close_time: Timestamp,
    ) -> (r: Candle)
        ensures
            r == (Candle {
                symbol,
                open,
                high,
                low,
                close,
                volume,
                trades,
                open_time,
                close_time,
            }),
    {
        Candle { symbol, open, high, low, close, volume, trades, open_time, close_time }
    }

    /// A one-trade candle from a tick: every price is the tick's price.
    pub fn from_tick(tick: &Tick) -> (r: Candle)
        ensures
            r == (Candle {
                symbol: tick.symbol,
                open: tick.price,
                high: tick.price,
                low: tick.price,
                close: tick.price,
                volume: tick.quantity,
                trades: 1,
                open_time: tick.timestamp,
                close_time: tick.timestamp,
            }),
    {
        Candle {
            symbol: tick.symbol.clone(),
            open: tick.price,
            high: tick.price,
            low: tick.price,
            close: tick.price,
            volume: tick.quantity,
            trades: 1,
            open_time: tick.timestamp,
            close_time: tick.timestamp,
        }
    }

    /// Fold a tick into the candle: high and low widen to its price, close
    /// becomes its price, volume and trade count grow, close time never goes
    /// back.
    pub fn update_with_tick(&mut self, tick: &Tick)
        requires
            old(self).high.wf(),
            old(self).low.wf(),
            old(self).volume.wf(),
            tick.price.wf(),
            tick.quantity.wf(),
            addable(old(self).volume, tick.quantity),
            old(self).trades < u64::MAX,
        ensures
            final(self).high == (if old(self).high.units() > tick.price.units() {
                old(self).high
            } else {
                tick.price
            }),
            final(self).low == (if tick.price.units() < old(self).low.units() {
                tick.price
            } else {
                old(self).low
            }),
            final(self).close == tick.price,
            Some(final(self).volume@) == decimal_add(old(self).volume@, tick.quantity@),
            final(self).trades == old(self).trades + 1,
            final(self).close_time == (if old(self).close_time >= tick.timestamp {
                old(self).close_time
            } else {
                tick.timestamp
            }),
            final(self).symbol == old(self).symbol,
            final(self).open == old(self).open,
            final(self).open_time == old(self).open_time,
    {
        self.high = self.high.max(tick.price);
        self.low = self.low.min(tick.price);
        self.close = tick.price;
        self.volume = self.volume.checked_add(tick.quantity).unwrap();
        self.trades = self.trades + 1;
        if self.close_time < tick.timestamp {
            self.close_time = tick.timestamp;
        }
    }

    /// The midpoint `(high + low) / 2`, when it is positive.
    pub fn midpoint(&self) -> (r: Option<Dec>)
        requires
            self.high.wf(),
            self.low.wf(),
            addable(self.high, self.low),
        ensures
            r is Some <==> view_units(spec_midpoint(self.high, self.low)) > 0,
            r matches Some(m) ==> m@ == spec_midpoint(self.high, self.low),
    {
        let mid = half_sum(self.high, self.low);
        if mid.gt(Dec::zero()) {
            Some(mid)
        } else {
            None
        }
    }
}

// =============================================================================
// Order book snapshot
// =============================================================================
/// The best bids and asks on the order book at a point in time.
#[derive(Debug, Clone, PartialEq)]
pub struct OrderBookSnapshot {
    /// Trading symbol
    pub symbol: Symbol,
    /// Best bid prices (descending), as (price, quantity)
    pub bids: Vec<(Dec, Dec)>,
    /// Best ask prices (ascending), as (price, quantity)
    pub asks: Vec<(Dec, Dec)>,
    /// Timestamp of the snapshot
    pub timestamp: Timestamp,
}

/// The price of the first level of a side of the book.
pub open spec fn first_price(levels: Seq<(Dec, Dec)>) -> Option<Dec> {
    if levels.len() > 0 {
        Some(levels[0].0)
    } else {
        None
    }
}

/// The book's prices are in range, and best bid and ask can be added.
pub open spec fn book_ok(book: OrderBookSnapshot) -> bool {
    match (first_price(book.bids@), first_price(book.asks@)) {
        (Some(b), Some(a)) => b.wf() && a.wf() && addable(b, a),
        _ => true,
    }
}

impl OrderBookSnapshot {
    /// A new snapshot.
    pub fn new(symbol: Symbol, bids: Vec<(Dec, Dec)>, asks: Vec<(Dec, Dec)>, timestamp: Timestamp) -> (r:
        OrderBookSnapshot)
        ensures
            r.symbol == symbol,
            r.bids@ == bids@,
            r.asks@ == asks@,
            r.timestamp == timestamp,
    {
        OrderBookSnapshot { symbol, bids, asks, timestamp }
    }

    /// The best (first) bid price.
    pub fn best_bid(&self) -> (r: Option<Dec>)
        ensures
            r == first_price(self.bids@),
    {
        if self.bids.len() > 0 {
            Some(self.bids[0].0)
        } else {
            None
        }
    }

    /// The best (first) ask price.
    pub fn best_ask(&self) -> (r: Option<Dec>)
        ensures
            r == first_price(self.asks@),
    {
        if self.asks.len() > 0 {
            Some(self.asks[0].0)
        } else {
            None
        }
    }

    /// `(best bid + best ask) / 2`, when both sides have a level.
    pub fn midpoint(&self) -> (r: Option<Dec>)
        requires
            book_ok(*self),
        ensures
            r is Some <==> first_price(self.bids@) is Some && first_price(self.asks@) is Some,
            r matches Some(m) ==> m@ == spec_midpoint(
                first_price(self.bids@)->0,
                first_price(self.asks@)->0,
            ),
    {
        match (self.best_bid(), self.best_ask()) {
            (Some(bid), Some(ask)) => Some(half_sum(bid, ask)),
            _ => None,
        }
    }

    /// `best ask - best bid`, when both sides have a level.
    pub fn spread(&self) -> (r: Option<Dec>)
        requires
            book_ok(*self),
        ensures
            r is Some <==> first_price(self.bids@) is Some && first_price(self.asks@) is Some,
            r matches Some(s) ==> Some(s@) == decimal_sub(
                first_price(self.asks@)->0@,
                first_price(self.bids@)->0@,
            ),
    {
        match (self.best_bid(), self.best_ask()) {
            (Some(bid), Some(ask)) => Some(ask.checked_sub(bid).unwrap()),
            _ => None,
        }
    }
}

// =============================================================================
// Unified feed event
// =============================================================================
/// A market data event from the feed.
#[derive(Debug, Clone, PartialEq)]
pub enum MarketDataEvent {
    /// Single trade tick
    Tick(Tick),
    /// Candlestick data (aggregated)
    Candle(Candle),
    /// Order book snapshot
    OrderBook(OrderBookSnapshot),
}

impl MarketDataEvent {
    /// The event's symbol.
    pub fn symbol(&self) -> (r: Symbol)
        ensures
            r == match self {
                MarketDataEvent::Tick(t) => t.symbol,
                MarketDataEvent::Candle(c) => c.symbol,
                MarketDataEvent::OrderBook(ob) => ob.symbol,
            },
    {
        match self {
            MarketDataEvent::Tick(t) => t.symbol.clone(),
            MarketDataEvent::Candle(c) => c.symbol.clone(),
            MarketDataEvent::OrderBook(ob) => ob.symbol.clone(),
        }
    }

    /// The event's time: the tick's, the candle's close, the snapshot's.
    pub fn timestamp(&self) -> (r: Timestamp)
        ensures
            r == match self {
                MarketDataEvent::Tick(t) => t.timestamp,
                MarketDataEvent::Candle(c) => c.close_time,
                MarketDataEvent::OrderBook(ob) => ob.timestamp,
            },
    {
        match self {
            MarketDataEvent::Tick(t) => t.timestamp,
            MarketDataEvent::Candle(c) => c.close_time,
            MarketDataEvent::OrderBook(ob) => ob.timestamp,
        }
    }

    /// The event's price: the tick's, the candle's close, the book's
    /// midpoint.
    pub fn price(&self) -> (r: Option<Dec>)
        requires
            self matches MarketDataEvent::OrderBook(ob) ==> book_ok(*ob),
        ensures
            self matches MarketDataEvent::Tick(t) ==> r == Some(t.price),
            self matches MarketDataEvent::Candle(c) ==> r == Some(c.close),
            self matches MarketDataEvent::OrderBook(ob) ==> (r is Some <==> first_price(
                ob.bids@,
            ) is Some && first_price(ob.asks@) is Some) && (r matches Some(m) ==> m@
                == spec_midpoint(first_price(ob.bids@)->0, first_price(ob.asks@)->0)),
    {
        match self {
            MarketDataEvent::Tick(t) => Some(t.price),
            MarketDataEvent::Candle(c) => Some(c.close),
            MarketDataEvent::OrderBook(ob) => ob.midpoint(),
        }
    }
}

} // verus!
