//! Validated domain primitives: prices, quantities, trading pairs, sides,
//! risk configuration and the technical stop distance.

use vstd::prelude::*;

use crate::decimal::{
    abs_int, addable, dec_eq_spec, decimal_add, decimal_div, decimal_mul, decimal_sub,
    decimal_text, lemma_pow10_28, lemma_product_bounds, lemma_quotient_bounds, lemma_units_bound, not_tiny, MAX_MANTISSA, one_units,
    pow10, safe_units, view_abs, view_units, within, Dec,
};
use crate::text::{ends_with, join2, owned, str_eq};

verus! {

/// Domain errors for value object validation.
#[derive(Debug, Clone, PartialEq, Eq)]
pub enum DomainError {
    /// Price must be positive
    InvalidPrice(String),
    /// Quantity must be positive
    InvalidQuantity(String),
    /// Symbol must be valid trading pair
    InvalidSymbol(String),
    /// TechnicalStopDistance validation error
    InvalidTechnicalStopDistance(String),
    /// RiskConfig validation error
    InvalidRiskConfig(String),
    /// Position sizing error
    PositionSizingError(String),
    /// Invalid signal (mismatched position, symbol, or side)
    InvalidSignal(String),
    /// Invalid state transition
    InvalidStateTransition(String),
}

impl DomainError {
    /// The error message.
    pub open spec fn spec_text(&self) -> Seq<char> {
        match self {
            DomainError::InvalidPrice(m) => "Invalid price: "@ + m@,
            DomainError::InvalidQuantity(m) => "Invalid quantity: "@ + m@,
            DomainError::InvalidSymbol(m) => "Invalid symbol: "@ + m@,
            DomainError::InvalidTechnicalStopDistance(m) => "Invalid technical stop distance: "@
                + m@,
            DomainError::InvalidRiskConfig(m) => "Invalid risk config: "@ + m@,
            DomainError::PositionSizingError(m) => "Position sizing error: "@ + m@,
            DomainError::InvalidSignal(m) => "Invalid signal: "@ + m@,
            DomainError::InvalidStateTransition(m) => "Invalid state transition: "@ + m@,
        }
    }

    /// The error message.
    pub fn display(&self) -> (r: String)
        ensures
            r@ == self.spec_text(),
    {
        let (prefix, m) = match self {
            DomainError::InvalidPrice(m) => ("Invalid price: ", m),
            DomainError::InvalidQuantity(m) => ("Invalid quantity: ", m),
            DomainError::InvalidSymbol(m) => ("Invalid symbol: ", m),
            DomainError::InvalidTechnicalStopDistance(m) => ("Invalid technical stop distance: ", m),
            DomainError::InvalidRiskConfig(m) => ("Invalid risk config: ", m),
            DomainError::PositionSizingError(m) => ("Position sizing error: ", m),
            DomainError::InvalidSignal(m) => ("Invalid signal: ", m),
            DomainError::InvalidStateTransition(m) => ("Invalid state transition: ", m),
        };
        join2(prefix, m.as_str())
    }
}

// =============================================================================
// Price
// =============================================================================
/// A decimal price. Validated prices (`Price::new`) are positive.
#[derive(Debug, Clone, Copy)]
pub struct Price(pub Dec);

impl Price {
    /// The representation invariant of the underlying decimal.
    pub open spec fn wf(self) -> bool {
        self.0.wf()
    }

    /// The price counted in steps of `10^-28`.
    pub open spec fn units(self) -> int {
        self.0.units()
    }

    /// A price, if `value > 0`.
    pub fn new(value: Dec) -> (r: Result<Price, DomainError>)
        requires
            value.wf(),
        ensures
            r is Ok <==> value.units() > 0,
            r matches Ok(p) ==> p.0 == value,
            r matches Err(e) ==> e matches DomainError::InvalidPrice(m) && m@
                == "Price must be positive"@,
    {
        if value.le(Dec::zero()) {
            return Err(DomainError::InvalidPrice(owned("Price must be positive")));
        }
        Ok(Price(value))
    }

    /// The underlying decimal.
    pub fn as_decimal(&self) -> (r: Dec)
        ensures
            r == self.0,
    {
        self.0
    }

    /// A zero price (for initialization only).
    pub fn zero() -> (r: Price)
        ensures
            r.wf(),
            r.units() == 0,
            r.0@ == (0int, 0int),
    {
        Price(Dec::zero())
    }

    /// A price holding `value` without validation.
    pub fn from_decimal(value: Dec) -> (r: Price)
        ensures
            r.0 == value,
    {
        Price(value)
    }
}

impl PartialEq for Price {
    fn eq(&self, other: &Price) -> (r: bool) {
        self.0 == other.0
    }
}

impl vstd::std_specs::cmp::PartialEqSpecImpl for Price {
    open spec fn obeys_eq_spec() -> bool {
        true
    }

    open spec fn eq_spec(&self, other: &Price) -> bool {
        dec_eq_spec(self.0, other.0)
    }
}

// =============================================================================
// Quantity
// =============================================================================
/// A decimal quantity. Validated quantities (`Quantity::new`) are positive.
#[derive(Debug, Clone, Copy)]
pub struct Quantity(pub Dec);

impl Quantity {
    /// The representation invariant of the underlying decimal.
    pub open spec fn wf(self) -> bool {
        self.0.wf()
    }

    /// The quantity counted in steps of `10^-28`.
    pub open spec fn units(self) -> int {
        self.0.units()
    }

    /// A quantity, if `value > 0`.
    pub fn new(value: Dec) -> (r: Result<Quantity, DomainError>)
        requires
            value.wf(),
        ensures
            r is Ok <==> value.units() > 0,
            r matches Ok(q) ==> q.0 == value,
            r matches Err(e) ==> e matches DomainError::InvalidQuantity(m) && m@
                == "Quantity must be positive"@,
    {
        if value.le(Dec::zero()) {
            return Err(DomainError::InvalidQuantity(owned("Quantity must be positive")));
        }
        Ok(Quantity(value))
    }

    /// The underlying decimal.
    pub fn as_decimal(&self) -> (r: Dec)
        ensures
            r == self.0,
    {
        self.0
    }

    /// A zero quantity (for initialization only).
    pub fn zero() -> (r: Quantity)
        ensures
            r.wf(),
            r.units() == 0,
            r.0@ == (0int, 0int),
    {
        Quantity(Dec::zero())
    }
}

impl PartialEq for Quantity {
    fn eq(&self, other: &Quantity) -> (r: bool) {
        self.0 == other.0
    }
}

impl vstd::std_specs::cmp::PartialEqSpecImpl for Quantity {
    open spec fn obeys_eq_spec() -> bool {
        true
    }

    open spec fn eq_spec(&self, other: &Quantity) -> bool {
        dec_eq_spec(self.0, other.0)
    }
}

// =============================================================================
// Symbol
// =============================================================================
/// The quote currencies that `Symbol::from_pair` recognises, in the order it
/// tries them.
pub open spec fn quote_currencies() -> Seq<Seq<char>> {
    seq![
        seq!['U', 'S', 'D', 'T'],
        seq!['B', 'U', 'S', 'D'],
        seq!['B', 'T', 'C'],
        seq!['E', 'T', 'H'],
        seq!['B', 'N', 'B'],
    ]
}

/// Whether `pair` ends with `quote` and has a non-empty part before it.
pub open spec fn splits_with(pair: Seq<char>, quote: Seq<char>) -> bool {
    quote.len() < pair.len() && pair.subrange(pair.len() - quote.len(), pair.len() as int) == quote
}

/// The split of `pair` into base and quote by the first of the quote
/// currencies from index `i` on that fits.
pub open spec fn split_pair_from(pair: Seq<char>, i: nat) -> Option<(Seq<char>, Seq<char>)>
    decreases quote_currencies().len() - i,
{
    if i >= quote_currencies().len() {
        None
    } else if splits_with(pair, quote_currencies()[i as int]) {
        let q = quote_currencies()[i as int];
        Some((pair.subrange(0, pair.len() - q.len()), q))
    } else {
        split_pair_from(pair, i + 1)
    }
}

/// A trading pair (base and quote currency, e.g. BTC and USDT).
#[derive(Debug, PartialEq, Eq, Hash)]
pub struct Symbol {
    /// Base currency
    pub base: String,
    /// Quote currency
    pub quote: String,
}

impl Clone for Symbol {
    fn clone(&self) -> (r: Symbol)
        ensures
            r == *self,
    {
        Symbol { base: self.base.clone(), quote: self.quote.clone() }
    }
}

impl Symbol {
    /// Both currencies are named.
    pub open spec fn wf(self) -> bool {
        self.base@.len() > 0 && self.quote@.len() > 0
    }

    /// The trading pair string: base followed by quote.
    pub open spec fn pair(self) -> Seq<char> {
        self.base@ + self.quote@
    }

    /// Parse a trading pair such as `"BTCUSDT"` by the first known quote
    /// currency (USDT, BUSD, BTC, ETH, BNB) that it ends with, leaving a
    /// non-empty base.
    pub fn from_pair(pair: &str) -> (r: Result<Symbol, DomainError>)
        ensures
            r is Ok <==> split_pair_from(pair@, 0) is Some,
            r matches Ok(s) ==> s.wf() && split_pair_from(pair@, 0) == Some((s.base@, s.quote@)),
            r matches Err(e) ==> e matches DomainError::InvalidSymbol(m) && m@
                == "Cannot parse trading pair: "@ + pair@,
    {
        let quotes: [&str; 5] = ["USDT", "BUSD", "BTC", "ETH", "BNB"];
        proof {
            reveal_strlit("USDT");
            reveal_strlit("BUSD");
            reveal_strlit("BTC");
            reveal_strlit("ETH");
            reveal_strlit("BNB");
            assert(quotes@[0]@ =~= quote_currencies()[0]);
            assert(quotes@[1]@ =~= quote_currencies()[1]);
            assert(quotes@[2]@ =~= quote_currencies()[2]);
            assert(quotes@[3]@ =~= quote_currencies()[3]);
            assert(quotes@[4]@ =~= quote_currencies()[4]);
        }
        let n = pair.unicode_len();
        let mut i: usize = 0;
        while i < 5
            invariant
                i <= 5,
                n == pair@.len(),
                forall|k: int| 0 <= k < 5 ==> (#[trigger] quotes@[k])@ == quote_currencies()[k],
                split_pair_from(pair@, 0) == split_pair_from(pair@, i as nat),
            decreases 5 - i,
        {
            let quote = quotes[i];
            let m = quote.unicode_len();
            if ends_with(pair, quote) && m < n {
                let base = pair.substring_char(0, n - m);
                return Ok(Symbol { base: owned(base), quote: owned(quote) });
            }
            i = i + 1;
        }
        Err(DomainError::InvalidSymbol(join2("Cannot parse trading pair: ", pair)))
    }

    /// A symbol from explicit base and quote, both non-empty.
    pub fn new(base: String, quote: String) -> (r: Result<Symbol, DomainError>)
        ensures
            r is Ok <==> base@.len() > 0 && quote@.len() > 0,
            r matches Ok(s) ==> s.base@ == base@ && s.quote@ == quote@,
            r matches Err(e) ==> e matches DomainError::InvalidSymbol(m) && m@
                == "Base and quote must be non-empty"@,
    {
        if base.as_str().unicode_len() == 0 || quote.as_str().unicode_len() == 0 {
            return Err(DomainError::InvalidSymbol(owned("Base and quote must be non-empty")));
        }
        Ok(Symbol { base, quote })
    }

    /// The base currency.
    pub fn base(&self) -> (r: &str)
        ensures
            r@ == self.base@,
    {
        self.base.as_str()
    }

    /// The quote currency.
    pub fn quote(&self) -> (r: &str)
        ensures
            r@ == self.quote@,
    {
        self.quote.as_str()
    }

    /// The trading pair as a string (e.g. `"BTCUSDT"`).
    pub fn as_pair(&self) -> (r: String)
        ensures
            r@ == self.pair(),
    {
        join2(self.base.as_str(), self.quote.as_str())
    }

    /// Whether the two symbols name the same currencies.
    pub fn same_as(&self, other: &Symbol) -> (r: bool)
        ensures
            r == (self.base@ == other.base@ && self.quote@ == other.quote@),
    {
        str_eq(self.base.as_str(), other.base.as_str()) && str_eq(
            self.quote.as_str(),
            other.quote.as_str(),
        )
    }
}

// =============================================================================
// Side
// =============================================================================
/// Position direction.
#[derive(Debug, Clone, Copy, PartialEq, Eq, Structural)]
pub enum Side {
    /// Long position (buy low, sell high)
    Long,
    /// Short position (sell high, buy low)
    Short,
}

/// Order direction.
#[derive(Debug, Clone, Copy, PartialEq, Eq, Structural)]
pub enum OrderSide {
    /// Buy order
    Buy,
    /// Sell order
    Sell,
}

impl Side {
    /// The order side that opens a position of this side.
    pub open spec fn spec_entry_action(self) -> OrderSide {
        match self {
            Side::Long => OrderSide::Buy,
            Side::Short => OrderSide::Sell,
        }
    }

    /// The order side that closes a position of this side.
    pub open spec fn spec_exit_action(self) -> OrderSide {
        match self {
            Side::Long => OrderSide::Sell,
            Side::Short => OrderSide::Buy,
        }
    }

    /// Long → Buy, Short → Sell.
    pub fn entry_action(&self) -> (r: OrderSide)
        ensures
            r == self.spec_entry_action(),
    {
        match self {
            Side::Long => OrderSide::Buy,
            Side::Short => OrderSide::Sell,
        }
    }

    /// Long → Sell, Short → Buy.
    pub fn exit_action(&self) -> (r: OrderSide)
        ensures
            r == self.spec_exit_action(),
    {
        match self {
            Side::Long => OrderSide::Sell,
            Side::Short => OrderSide::Buy,
        }
    }

    /// `"LONG"` or `"SHORT"`.
    pub fn display(&self) -> (r: String)
        ensures
            r@ == (match self {
                Side::Long => "LONG"@,
                Side::Short => "SHORT"@,
            }),
    {
        match self {
            Side::Long => owned("LONG"),
            Side::Short => owned("SHORT"),
        }
    }
}

/// Entering and leaving a position trade in opposite directions.
pub proof fn lemma_entry_and_exit_are_opposite(side: Side)
    ensures
        side.spec_entry_action() != side.spec_exit_action(),
{
}

// =============================================================================
// RiskConfig
// =============================================================================
/// Capital and risk per trade used for position sizing (fixed 10x leverage).
#[derive(Debug, Clone, Copy)]
pub struct RiskConfig {
    /// Available capital in quote currency (e.g., USDT)
    pub capital: Dec,
    /// Risk per trade as percentage (e.g., 1 = 1%)
    pub risk_per_trade_pct: Dec,
}

/// `capital * pct / 100`, as `rust_decimal` computes it.
pub open spec fn spec_percent_of(capital: (int, int), pct: (int, int)) -> Option<(int, int)> {
    match decimal_mul(capital, pct) {
        Some(p) => decimal_div(p, (100, 0)),
        None => None,
    }
}

/// Capital times the risk percentage lies within half the decimal range, so
/// the maximum risk amount is representable.
pub open spec fn risk_amount_in_range(config: RiskConfig) -> bool {
    abs_int(config.capital.units()) * abs_int(config.risk_per_trade_pct.units()) <= safe_units()
        * one_units()
}

impl RiskConfig {
    /// Fixed leverage for all positions (10x isolated margin).
    pub const LEVERAGE: u8 = 10;

    /// The invariant that `RiskConfig::new` establishes.
    pub open spec fn wf(self) -> bool {
        &&& self.capital.wf()
        &&& self.risk_per_trade_pct.wf()
        &&& self.capital.units() > 0
        &&& self.risk_per_trade_pct.units() > 0
        &&& self.risk_per_trade_pct.units() <= 5 * one_units()
    }

    /// Validated configuration: capital > 0 and 0 < risk% <= 5.
    pub fn new(capital: Dec, risk_per_trade_pct: Dec) -> (r: Result<RiskConfig, DomainError>)
        requires
            capital.wf(),
            risk_per_trade_pct.wf(),
        ensures
            r is Ok <==> (capital.units() > 0 && risk_per_trade_pct.units() > 0
                && risk_per_trade_pct.units() <= 5 * one_units()),
            r matches Ok(c) ==> c.wf() && c.capital == capital && c.risk_per_trade_pct
                == risk_per_trade_pct,
            r matches Err(e) ==> e matches DomainError::InvalidRiskConfig(m) && m@ == (if capital.units()
                <= 0 {
                "Capital must be positive"@
            } else if risk_per_trade_pct.units() <= 0 {
                "Risk percentage must be positive"@
            } else {
                "Risk percentage cannot exceed 5%"@
            }),
    {
        if capital.le(Dec::zero()) {
            return Err(DomainError::InvalidRiskConfig(owned("Capital must be positive")));
        }
        if risk_per_trade_pct.le(Dec::zero()) {
            return Err(DomainError::InvalidRiskConfig(owned("Risk percentage must be positive")));
        }
        if risk_per_trade_pct.gt(Dec::from_int(5)) {
            return Err(DomainError::InvalidRiskConfig(owned("Risk percentage cannot exceed 5%")));
        }
        Ok(RiskConfig { capital, risk_per_trade_pct })
    }

    /// Capital.
    pub fn capital(&self) -> (r: Dec)
        ensures
            r == self.capital,
    {
        self.capital
    }

    /// Risk per trade in percent.
    pub fn risk_per_trade_pct(&self) -> (r: Dec)
        ensures
            r == self.risk_per_trade_pct,
    {
        self.risk_per_trade_pct
    }

    /// Maximum risk per trade in quote currency: capital × risk% / 100.
    pub fn max_risk_amount(&self) -> (r: Dec)
        requires
            self.wf(),
            risk_amount_in_range(*self),
        ensures
            r.wf(),
            spec_percent_of(self.capital@, self.risk_per_trade_pct@) == Some(r@),
            0 <= r.units(),
    {
        percent_of_representable(self.capital, self.risk_per_trade_pct)
    }

    /// Fixed leverage.
    pub fn leverage(&self) -> (r: u8)
        ensures
            r == 10,
    {
        10
    }

    /// `"RiskConfig { capital: .., risk: ..%, leverage: 10x }"`.
    pub fn display(&self) -> (r: String)
        requires
            self.capital.wf(),
            self.risk_per_trade_pct.wf(),
        ensures
            r@ == "RiskConfig { capital: "@ + decimal_text(self.capital@) + ", risk: "@
                + decimal_text(self.risk_per_trade_pct@) + "%, leverage: 10x }"@,
    {
        let mut s = owned("RiskConfig { capital: ");
        s.append(self.capital.to_text().as_str());
        s.append(", risk: ");
        s.append(self.risk_per_trade_pct.to_text().as_str());
        s.append("%, leverage: 10x }");
        s
    }
}

impl Default for RiskConfig {
    /// Capital 10000, risk 1%.
    fn default() -> (r: RiskConfig)
        ensures
            r.wf(),
            r.capital@ == (10000int, 0int),
            r.risk_per_trade_pct@ == (1int, 0int),
    {
        RiskConfig { capital: Dec::from_int(10000), risk_per_trade_pct: Dec::one() }
    }
}

/// `a * b / 100` for `0 <= a <= x` and `0 <= b <= y` whole units.
pub(crate) fn percent_of(a: Dec, b: Dec, Ghost(x): Ghost<int>, Ghost(y): Ghost<int>) -> (r: Dec)
    requires
        a.wf(),
        b.wf(),
        abs_int(a.units()) <= x * one_units(),
        abs_int(b.units()) <= y * one_units(),
        x >= 0,
        y >= 0,
        x * y <= 1000000000000000000000000000,
    ensures
        r.wf(),
        spec_percent_of(a@, b@) == Some(r@),
        abs_int(r.units()) <= (x * y + 2) * one_units(),
        a.units() >= 0 && b.units() >= 0 ==> r.units() >= 0,
{
    let ghost aa = abs_int(a.units());
    let ghost bb = abs_int(b.units());
    let p = a.checked_mul(b);
    proof {
        if let Some(pp) = p {
            lemma_product_bounds(aa, bb, abs_int(pp.units()), x, y);
        } else {
            lemma_product_bounds(aa, bb, 0, x, y);
        }
    }
    let p = p.unwrap();
    let hundred = Dec::from_int(100);
    let r = p.checked_div(hundred);
    proof {
        lemma_product_bounds(aa, bb, abs_int(p.units()), x, y);
        assert(abs_int(p.units()) * one_units() <= safe_units() * abs_int(hundred.units()));
    }
    let r = r.unwrap();
    proof {
        assert(abs_int(r.units()) * (100 * one_units()) <= abs_int(p.units()) * one_units()
            + one_units() * (100 * one_units()));
        let c = one_units();
        let rr = abs_int(r.units());
        let pp = abs_int(p.units());
        assert(rr * 100 <= pp + 100 * c) by (nonlinear_arith)
            requires
                rr * (100 * c) <= pp * c + c * (100 * c),
                c > 0,
        ;
        assert(rr <= (x * y + 2) * c) by (nonlinear_arith)
            requires
                rr * 100 <= pp + 100 * c,
                pp <= (x * y + 1) * c,
                c > 0,
                x * y >= 0,
        ;
    }
    r
}

/// `a × b / 100` as `rust_decimal` computes it, whenever the product is
/// representable (the division by 100 then always is); a product within
/// half the decimal range always is.
pub(crate) fn percent_of_representable(a: Dec, b: Dec) -> (r: Dec)
    requires
        a.wf(),
        b.wf(),
        decimal_mul(a@, b@) is Some || abs_int(a.units()) * abs_int(b.units()) <= safe_units()
            * one_units(),
    ensures
        r.wf(),
        spec_percent_of(a@, b@) == Some(r@),
        a.units() >= 0 && b.units() >= 0 ==> r.units() >= 0,
{
    let p = a.checked_mul(b).unwrap();
    let hundred = Dec::from_int(100);
    proof {
        lemma_units_bound(p);
        lemma_pow10_28();
        let c = one_units();
        let pp = abs_int(p.units());
        assert(pp * c <= safe_units() * abs_int(hundred.units())) by (nonlinear_arith)
            requires
                0 <= pp <= (MAX_MANTISSA as int) * c,
                c > 0,
                abs_int(hundred.units()) == 100 * c,
                safe_units() == 39614081257132168796771975168 * c,
                MAX_MANTISSA as int == 79228162514264337593543950335,
        ;
    }
    p.checked_div(hundred).unwrap()
}

// =============================================================================
// TechnicalStopDistance
// =============================================================================
/// Largest price, in whole units, for which the stop-distance arithmetic is
/// proved not to overflow (2^40).
pub open spec fn max_price_whole() -> int {
    1099511627776
}

/// A price the stop-distance arithmetic handles: in range, at most 2^40 whole
/// units, and zero or at least 2^-32.
pub open spec fn price_in_range(p: Price) -> bool {
    &&& p.wf()
    &&& within(p.0, max_price_whole())
    &&& not_tiny(p.0)
}

/// `|entry - stop|` as `rust_decimal` computes it.
pub open spec fn spec_stop_distance(entry: (int, int), stop: (int, int)) -> Option<(int, int)> {
    match decimal_sub(entry, stop) {
        Some(d) => Some(view_abs(d)),
        None => None,
    }
}

/// `distance / entry * 100` (zero for a zero entry) as `rust_decimal`
/// computes it.
pub open spec fn spec_distance_pct(distance: (int, int), entry: (int, int)) -> Option<(int, int)> {
    if view_units(entry) == 0 {
        Some((0, 0))
    } else {
        match decimal_div(distance, entry) {
            Some(q) => decimal_mul(q, (100, 0)),
            None => None,
        }
    }
}

/// An entry and a stop whose distance and percentage are representable: the
/// difference fits, and the distance as a percentage of a non-zero entry
/// stays within the decimal range (`100 × (2|entry| + |stop| + 1)` is at most
/// the range times `|entry|`).
pub open spec fn stop_pair_in_range(entry: Price, stop: Price) -> bool {
    let c = one_units();
    let e = abs_int(entry.units());
    let s = abs_int(stop.units());
    &&& entry.wf()
    &&& stop.wf()
    &&& e + s <= safe_units()
    &&& e != 0 ==> 100 * c * (2 * e + s + c) <= safe_units() * e
}

/// Distance from entry to the chart-derived technical stop; the anchor of
/// both position sizing and trailing.
#[derive(Debug, Clone, Copy, PartialEq)]
pub struct TechnicalStopDistance {
    /// Absolute distance in quote currency (used for trailing)
    pub distance: Dec,
    /// Percentage of entry price
    pub distance_pct: Dec,
    /// Entry price
    pub entry_price: Price,
    /// Initial technical stop price (from chart analysis)
    pub initial_stop: Price,
}

impl TechnicalStopDistance {
    /// All four numbers are in range.
    pub open spec fn wf(self) -> bool {
        &&& self.distance.wf()
        &&& self.distance_pct.wf()
        &&& self.entry_price.wf()
        &&& self.initial_stop.wf()
    }

    /// What `from_entry_and_stop(entry, stop)` builds.
    pub open spec fn spec_from(self, entry: Price, stop: Price) -> bool {
        &&& self.wf()
        &&& self.entry_price == entry
        &&& self.initial_stop == stop
        &&& spec_stop_distance(entry.0@, stop.0@) == Some(self.distance@)
        &&& spec_distance_pct(self.distance@, entry.0@) == Some(self.distance_pct@)
        &&& 0 <= self.distance.units() <= abs_int(entry.units()) + abs_int(stop.units()) + one_units()
    }

    /// Distance = |entry - stop|; percentage = distance / entry × 100 (zero
    /// for a zero entry).
    pub fn from_entry_and_stop(entry: Price, initial_stop: Price) -> (r: TechnicalStopDistance)
        requires
            stop_pair_in_range(entry, initial_stop),
        ensures
            r.spec_from(entry, initial_stop),
    {
        let e = entry.as_decimal();
        let s = initial_stop.as_decimal();
        let diff = e.checked_sub(s).unwrap();
        let distance = diff.abs();
        let distance_pct = if !e.is_zero() {
            let ghost c = one_units();
            let ghost eb = abs_int(e.units());
            let ghost sb = abs_int(s.units());
            let ghost d = distance.units();
            proof {
                assert(d * c <= safe_units() * eb) by (nonlinear_arith)
                    requires
                        0 <= d <= eb + sb + c,
                        100 * c * (2 * eb + sb + c) <= safe_units() * eb,
                        c > 0,
                        eb > 0,
                        sb >= 0,
                ;
            }
            let q = distance.checked_div(e).unwrap();
            let hundred = Dec::from_int(100);
            proof {
                let qb = abs_int(q.units());
                assert(qb * abs_int(hundred.units()) <= safe_units() * c) by (nonlinear_arith)
                    requires
                        qb * eb <= d * c + c * eb,
                        0 <= d <= eb + sb + c,
                        100 * c * (2 * eb + sb + c) <= safe_units() * eb,
                        abs_int(hundred.units()) == 100 * c,
                        c > 0,
                        eb > 0,
                        sb >= 0,
                        qb >= 0,
                ;
            }
            q.checked_mul(hundred).unwrap()
        } else {
            Dec::zero()
        };
        TechnicalStopDistance { distance, distance_pct, entry_price: entry, initial_stop }
    }

    /// Like `from_entry_and_stop`, but rejects a zero distance and a stop on
    /// the wrong side of entry (below entry for Long, above for Short).
    pub fn new_validated(entry: Price, initial_stop: Price, side: Side) -> (r: Result<
        TechnicalStopDistance,
        DomainError,
    >)
        requires
            stop_pair_in_range(entry, initial_stop),
        ensures
            ({
                let d = spec_stop_distance(entry.0@, initial_stop.0@).unwrap();
                let wrong_side = match side {
                    Side::Long => initial_stop.units() >= entry.units(),
                    Side::Short => initial_stop.units() <= entry.units(),
                };
                &&& r is Ok <==> view_units(d) > 0 && !wrong_side
                &&& (view_units(d) > 0 <==> entry.units() != initial_stop.units())
                &&& r is Ok <==> match side {
                    Side::Long => initial_stop.units() < entry.units(),
                    Side::Short => initial_stop.units() > entry.units(),
                }
                &&& r matches Ok(t) ==> t.spec_from(entry, initial_stop)
                &&& r matches Err(e) ==> e matches DomainError::InvalidTechnicalStopDistance(m) && m@
                    == (if view_units(d) <= 0 {
                    "Stop distance must be positive (stop cannot equal entry price)"@
                } else {
                    match side {
                        Side::Long => "LONG position requires stop below entry price"@,
                        Side::Short => "SHORT position requires stop above entry price"@,
                    }
                })
            }),
    {
        let diff = entry.as_decimal().checked_sub(initial_stop.as_decimal()).unwrap();
        let distance = diff.abs();
        if distance.le(Dec::zero()) {
            return Err(
                DomainError::InvalidTechnicalStopDistance(
                    owned("Stop distance must be positive (stop cannot equal entry price)"),
                ),
            );
        }
        match side {
            Side::Long => {
                if initial_stop.as_decimal().ge(entry.as_decimal()) {
                    return Err(
                        DomainError::InvalidTechnicalStopDistance(
                            owned("LONG position requires stop below entry price"),
                        ),
                    );
                }
            },
            Side::Short => {
                if initial_stop.as_decimal().le(entry.as_decimal()) {
                    return Err(
                        DomainError::InvalidTechnicalStopDistance(
                            owned("SHORT position requires stop above entry price"),
                        ),
                    );
                }
            },
        }
        Ok(Self::from_entry_and_stop(entry, initial_stop))
    }

    /// Policy bounds: distance > 0 and 0.1% <= percentage <= 10%.
    pub fn validate(&self) -> (r: Result<(), DomainError>)
        requires
            self.wf(),
        ensures
            r is Ok <==> (self.distance.units() > 0 && self.distance_pct.units() <= 10
                * one_units() && self.distance_pct.units() * 10 >= one_units()),
            r matches Err(e) ==> e matches DomainError::InvalidTechnicalStopDistance(m) && m@ == (
            if self.distance.units() <= 0 {
                "Distance must be positive"@
            } else if self.distance_pct.units() > 10 * one_units() {
                "Stop too wide (>10%)"@
            } else {
                "Stop too tight (<0.1%)"@
            }),
    {
        if self.distance.le(Dec::zero()) {
            return Err(
                DomainError::InvalidTechnicalStopDistance(owned("Distance must be positive")),
            );
        }
        if self.distance_pct.gt(Dec::from_int(10)) {
            return Err(DomainError::InvalidTechnicalStopDistance(owned("Stop too wide (>10%)")));
        }
        let tenth = Dec::new(1, 1);
        proof {
            lemma_pow10_28();
            reveal_with_fuel(pow10, 28);
            assert(tenth.units() * 10 == one_units());
        }
        if self.distance_pct.lt(tenth) {
            return Err(DomainError::InvalidTechnicalStopDistance(owned("Stop too tight (<0.1%)")));
        }
        Ok(())
    }

    /// Long trailing stop: `max(peak - distance, initial stop)`.
    pub fn calculate_trailing_stop_long(&self, peak_price: Dec) -> (r: Price)
        requires
            self.wf(),
            peak_price.wf(),
            addable(peak_price, self.distance),
        ensures
            r.wf(),
            ({
                let candidate = decimal_sub(peak_price@, self.distance@).unwrap();
                r.0@ == (if view_units(candidate) > self.initial_stop.units() {
                    candidate
                } else {
                    self.initial_stop.0@
                })
            }),
            r.units() >= self.initial_stop.units(),
    {
        let stop_value = peak_price.checked_sub(self.distance).unwrap();
        Price(stop_value.max(self.initial_stop.as_decimal()))
    }

    /// Short trailing stop: `min(low + distance, initial stop)`.
    pub fn calculate_trailing_stop_short(&self, low_price: Dec) -> (r: Price)
        requires
            self.wf(),
            low_price.wf(),
            addable(low_price, self.distance),
        ensures
            r.wf(),
            ({
                let candidate = decimal_add(low_price@, self.distance@).unwrap();
                r.0@ == (if self.initial_stop.units() < view_units(candidate) {
                    self.initial_stop.0@
                } else {
                    candidate
                })
            }),
            r.units() <= self.initial_stop.units(),
    {
        let stop_value = low_price.checked_add(self.distance).unwrap();
        Price(stop_value.min(self.initial_stop.as_decimal()))
    }

    /// Long exit: price at or below the trailing stop.
    pub fn should_exit_long(&self, current_price: Dec, trailing_stop: Dec) -> (r: bool)
        requires
            current_price.wf(),
            trailing_stop.wf(),
        ensures
            r == (current_price.units() <= trailing_stop.units()),
    {
        current_price.le(trailing_stop)
    }

    /// Short exit: price at or above the trailing stop.
    pub fn should_exit_short(&self, current_price: Dec, trailing_stop: Dec) -> (r: bool)
        requires
            current_price.wf(),
            trailing_stop.wf(),
        ensures
            r == (current_price.units() >= trailing_stop.units()),
    {
        current_price.ge(trailing_stop)
    }
}

} // verus!
