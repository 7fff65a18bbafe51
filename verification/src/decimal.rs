//! Fixed-point decimal numbers.
//!
//! `Dec` holds a decimal number as plain values: a signed mantissa and a scale
//! (the number of digits after the decimal point), exactly as the
//! `rust_decimal` crate represents its numbers. Arithmetic that rounds
//! (addition, subtraction, multiplication, division, parsing and formatting)
//! is done by `rust_decimal`; comparisons, negation, absolute value, `max` and
//! `min` are proved here.
//!
//! The mathematical value of a `Dec` is `mantissa / 10^scale`. Contracts speak
//! of it through `units`, the value counted in steps of `10^-28` (an integer,
//! since the scale never exceeds 28).

use vstd::prelude::*;

verus! {

/// Largest number of digits after the decimal point.
pub const MAX_SCALE: u32 = 28;

/// Largest magnitude of a mantissa (96 bits).
pub const MAX_MANTISSA: i128 = 0xFFFF_FFFF_FFFF_FFFF_FFFF_FFFF;

/// `10^n`.
pub open spec fn pow10(n: nat) -> int
    decreases n,
{
    if n == 0 {
        1
    } else {
        10 * pow10((n - 1) as nat)
    }
}

/// `10^28`, one whole unit counted in steps of `10^-28`.
pub open spec fn one_units() -> int {
    10_000_000_000_000_000_000_000_000_000
}

/// Magnitude below which a decimal operation is guaranteed not to overflow:
/// `2^95` whole units, counted in steps of `10^-28`.
pub open spec fn safe_units() -> int {
    39614081257132168796771975168 * one_units()
}

/// Absolute value of an integer.
pub open spec fn abs_int(x: int) -> int {
    if x < 0 {
        -x
    } else {
        x
    }
}

pub proof fn lemma_pow10_28()
    ensures
        pow10(28) == one_units(),
{
    reveal_with_fuel(pow10, 29);
}

pub proof fn lemma_pow10_positive(n: nat)
    ensures
        pow10(n) >= 1,
    decreases n,
{
    if n > 0 {
        lemma_pow10_positive((n - 1) as nat);
    }
}

/// A fixed-point decimal number: `mantissa / 10^scale`.
#[derive(Debug, Clone, Copy)]
pub struct Dec {
    /// Signed mantissa; its magnitude fits in 96 bits.
    pub mantissa: i128,
    /// Digits after the decimal point, at most 28.
    pub scale: u32,
}

impl View for Dec {
    type V = (int, int);

    open spec fn view(&self) -> (int, int) {
        (self.mantissa as int, self.scale as int)
    }
}

/// The view of an optional decimal.
pub open spec fn opt_view(d: Option<Dec>) -> Option<(int, int)> {
    match d {
        Some(x) => Some(x@),
        None => None,
    }
}

/// The value of a decimal given by its view, counted in steps of `10^-28`.
pub open spec fn view_units(v: (int, int)) -> int {
    v.0 * pow10((28 - v.1) as nat)
}

/// A view that a `Dec` can take.
pub open spec fn view_wf(v: (int, int)) -> bool {
    &&& -(MAX_MANTISSA as int) <= v.0 <= MAX_MANTISSA as int
    &&& 0 <= v.1 <= MAX_SCALE as int
}

/// What `rust_decimal` returns for `a.checked_add(b)`, on views.
pub uninterp spec fn decimal_add(a: (int, int), b: (int, int)) -> Option<(int, int)>;

/// What `rust_decimal` returns for `a.checked_sub(b)`, on views.
pub uninterp spec fn decimal_sub(a: (int, int), b: (int, int)) -> Option<(int, int)>;

/// What `rust_decimal` returns for `a.checked_mul(b)`, on views.
pub uninterp spec fn decimal_mul(a: (int, int), b: (int, int)) -> Option<(int, int)>;

/// What `rust_decimal` returns for `a.checked_div(b)`, on views.
pub uninterp spec fn decimal_div(a: (int, int), b: (int, int)) -> Option<(int, int)>;

/// What `rust_decimal` parses from a string: the number, or the text of the
/// parse error.
pub uninterp spec fn decimal_parse(s: Seq<char>) -> Result<(int, int), Seq<char>>;

/// How `rust_decimal` writes a decimal.
pub uninterp spec fn decimal_text(a: (int, int)) -> Seq<char>;

impl Dec {
    /// The representation invariant: the mantissa fits in 96 bits and the
    /// scale is at most 28.
    pub open spec fn wf(self) -> bool {
        view_wf(self@)
    }

    /// The value counted in steps of `10^-28`.
    pub open spec fn units(self) -> int {
        view_units(self@)
    }

    /// The decimal `mantissa / 10^scale`.
    pub fn new(mantissa: i64, scale: u32) -> (r: Dec)
        requires
            scale <= MAX_SCALE,
        ensures
            r.wf(),
            r.mantissa == mantissa,
            r.scale == scale,
    {
        Dec { mantissa: mantissa as i128, scale }
    }

    /// The decimal `mantissa / 10^scale`, if the parts are in range.
    pub fn from_parts(mantissa: i128, scale: u32) -> (r: Option<Dec>)
        ensures
            r is Some <==> view_wf((mantissa as int, scale as int)),
            r matches Some(d) ==> d.mantissa == mantissa && d.scale == scale,
    {
        if scale <= MAX_SCALE && -MAX_MANTISSA <= mantissa && mantissa <= MAX_MANTISSA {
            Some(Dec { mantissa, scale })
        } else {
            None
        }
    }

    /// The whole number `n`.
    pub fn from_int(n: i64) -> (r: Dec)
        ensures
            r.wf(),
            r.mantissa == n,
            r.scale == 0,
            r.units() == n * one_units(),
    {
        proof {
            lemma_pow10_28();
        }
        Dec { mantissa: n as i128, scale: 0 }
    }

    /// Zero.
    pub fn zero() -> (r: Dec)
        ensures
            r.wf(),
            r.units() == 0,
            r@ == (0int, 0int),
    {
        Dec { mantissa: 0, scale: 0 }
    }

    /// One.
    pub fn one() -> (r: Dec)
        ensures
            r.wf(),
            r.units() == one_units(),
            r@ == (1int, 0int),
    {
        proof {
            lemma_pow10_28();
        }
        Dec { mantissa: 1, scale: 0 }
    }

    /// `-self`, exactly.
    pub fn neg(self) -> (r: Dec)
        requires
            self.wf(),
        ensures
            r.wf(),
            r.mantissa == -self.mantissa,
            r.scale == self.scale,
            r.units() == -self.units(),
    {
        let r = Dec { mantissa: -self.mantissa, scale: self.scale };
        proof {
            let p = pow10((28 - self.scale) as nat);
            assert((-self.mantissa) * p == -(self.mantissa * p)) by (nonlinear_arith);
        }
        r
    }

    /// `|self|`, exactly.
    pub fn abs(self) -> (r: Dec)
        requires
            self.wf(),
        ensures
            r.wf(),
            r.scale == self.scale,
            r@ == (abs_int(self.mantissa as int), self.scale as int),
            r.units() == abs_int(self.units()),
    {
        if self.mantissa < 0 {
            proof {
                lemma_pow10_positive((28 - self.scale) as nat);
                let p = pow10((28 - self.scale) as nat);
                assert(self.mantissa * p < 0) by (nonlinear_arith)
                    requires
                        self.mantissa < 0,
                        p >= 1,
                ;
            }
            self.neg()
        } else {
            proof {
                lemma_pow10_positive((28 - self.scale) as nat);
                let p = pow10((28 - self.scale) as nat);
                assert(self.mantissa * p >= 0) by (nonlinear_arith)
                    requires
                        self.mantissa >= 0,
                        p >= 1,
                ;
            }
            self
        }
    }

    /// `self < other` by value.
    pub fn lt(self, other: Dec) -> (r: bool)
        requires
            self.wf(),
            other.wf(),
        ensures
            r == (self.units() < other.units()),
    {
        decimal_less(self, other)
    }

    /// `self <= other` by value.
    pub fn le(self, other: Dec) -> (r: bool)
        requires
            self.wf(),
            other.wf(),
        ensures
            r == (self.units() <= other.units()),
    {
        !decimal_less(other, self)
    }

    /// `self > other` by value.
    pub fn gt(self, other: Dec) -> (r: bool)
        requires
            self.wf(),
            other.wf(),
        ensures
            r == (self.units() > other.units()),
    {
        decimal_less(other, self)
    }

    /// `self >= other` by value.
    pub fn ge(self, other: Dec) -> (r: bool)
        requires
            self.wf(),
            other.wf(),
        ensures
            r == (self.units() >= other.units()),
    {
        !decimal_less(self, other)
    }

    /// `self == other` by value (`1.0` equals `1.00`).
    pub fn eq_value(self, other: Dec) -> (r: bool)
        requires
            self.wf(),
            other.wf(),
        ensures
            r == (self.units() == other.units()),
    {
        !decimal_less(self, other) && !decimal_less(other, self)
    }

    /// The larger of the two; `other` when they are equal in value.
    pub fn max(self, other: Dec) -> (r: Dec)
        requires
            self.wf(),
            other.wf(),
        ensures
            r.wf(),
            r == (if self.units() > other.units() { self } else { other }),
            r.units() >= self.units(),
            r.units() >= other.units(),
    {
        if decimal_less(other, self) {
            self
        } else {
            other
        }
    }

    /// The smaller of the two; `self` when they are equal in value.
    pub fn min(self, other: Dec) -> (r: Dec)
        requires
            self.wf(),
            other.wf(),
        ensures
            r.wf(),
            r == (if other.units() < self.units() { other } else { self }),
            r.units() <= self.units(),
            r.units() <= other.units(),
    {
        if decimal_less(other, self) {
            other
        } else {
            self
        }
    }

    /// Whether the value is zero.
    pub fn is_zero(self) -> (r: bool)
        requires
            self.wf(),
        ensures
            r == (self.units() == 0),
    {
        proof {
            lemma_pow10_positive((28 - self.scale) as nat);
            let p = pow10((28 - self.scale) as nat);
            assert(self.mantissa == 0 <==> self.mantissa * p == 0) by (nonlinear_arith)
                requires
                    p >= 1,
            ;
        }
        self.mantissa == 0
    }

    /// `self + other`, or `None` on overflow.
    pub fn checked_add(self, other: Dec) -> (r: Option<Dec>)
        requires
            self.wf(),
            other.wf(),
        ensures
            opt_view(r) == decimal_add(self@, other@),
            r matches Some(x) ==> x.wf() && abs_int(x.units()) <= abs_int(self.units())
                + abs_int(other.units()) + one_units(),
            abs_int(self.units()) + abs_int(other.units()) <= safe_units() ==> r is Some,
            r matches Some(x) ==> (self.units() >= 0 && other.units() >= 0 ==> x.units() >= 0),
    {
        decimal_checked_add(self, other)
    }

    /// `self - other`, or `None` on overflow.
    pub fn checked_sub(self, other: Dec) -> (r: Option<Dec>)
        requires
            self.wf(),
            other.wf(),
        ensures
            opt_view(r) == decimal_sub(self@, other@),
            r matches Some(x) ==> x.wf() && abs_int(x.units()) <= abs_int(self.units())
                + abs_int(other.units()) + one_units(),
            abs_int(self.units()) + abs_int(other.units()) <= safe_units() ==> r is Some,
            r matches Some(x) ==> (self.units() >= other.units() ==> x.units() >= 0) && (
            self.units() <= other.units() ==> x.units() <= 0),
            r matches Some(x) ==> (self.units() > other.units() ==> x.units() > 0) && (
            self.units() < other.units() ==> x.units() < 0),
    {
        decimal_checked_sub(self, other)
    }

    /// `self * other`, or `None` on overflow.
    pub fn checked_mul(self, other: Dec) -> (r: Option<Dec>)
        requires
            self.wf(),
            other.wf(),
        ensures
            opt_view(r) == decimal_mul(self@, other@),
            r matches Some(x) ==> x.wf() && abs_int(x.units()) * one_units() <= abs_int(
                self.units(),
            ) * abs_int(other.units()) + one_units() * one_units(),
            abs_int(self.units()) * abs_int(other.units()) <= safe_units() * one_units()
                ==> r is Some,
            r matches Some(x) ==> (self.units() >= 0 && other.units() >= 0 ==> x.units() >= 0),
    {
        decimal_checked_mul(self, other)
    }

    /// `self / other`, or `None` on division by zero or overflow.
    pub fn checked_div(self, other: Dec) -> (r: Option<Dec>)
        requires
            self.wf(),
            other.wf(),
        ensures
            opt_view(r) == decimal_div(self@, other@),
            r matches Some(x) ==> x.wf() && abs_int(x.units()) * abs_int(other.units()) <= abs_int(
                self.units(),
            ) * one_units() + one_units() * abs_int(other.units()),
            other.units() == 0 ==> r is None,
            other.units() != 0 && abs_int(self.units()) * one_units() <= safe_units()
                * abs_int(other.units()) ==> r is Some,
            r matches Some(x) ==> (self.units() >= 0 && other.units() > 0 ==> x.units() >= 0),
    {
        decimal_checked_div(self, other)
    }

    /// The largest whole number not above `self`, at scale 0.
    pub fn floor(self) -> (r: Dec)
        requires
            self.wf(),
        ensures
            r.wf(),
            r@ == (self.units() / one_units(), 0int),
            r.units() == (self.units() / one_units()) * one_units(),
    {
        let r = decimal_floor(self);
        proof {
            lemma_pow10_28();
        }
        r
    }

    /// The decimal written in `s` (for example `"95000.5"`), if `s` is one.
    pub fn parse(s: &str) -> (r: Option<Dec>)
        ensures
            r matches Some(d) ==> decimal_parse(s@) == Ok::<(int, int), Seq<char>>(d@) && d.wf(),
            r is None ==> decimal_parse(s@) is Err,
    {
        match decimal_from_text(s) {
            Ok(d) => Some(d),
            Err(_) => None,
        }
    }

    /// The decimal written in `s`, or the text of the parse error.
    pub fn parse_text(s: &str) -> (r: Result<Dec, String>)
        ensures
            r matches Ok(d) ==> (decimal_parse(s@) is Ok && decimal_parse(s@)->Ok_0 == d@ && d.wf()),
            r matches Err(m) ==> (decimal_parse(s@) is Err && decimal_parse(s@)->Err_0 == m@),
    {
        decimal_from_text(s)
    }

    /// The decimal written out, as `rust_decimal` writes it.
    pub fn to_text(self) -> (r: String)
        requires
            self.wf(),
        ensures
            r@ == decimal_text(self@),
    {
        decimal_to_text(self)
    }
}

/// Calls `rust_decimal`'s `<` on the two numbers. Claims that it orders
/// decimals by their mathematical value (`mantissa / 10^scale`), which is
/// what its `Ord` implementation (`cmp_impl`, which rescales before
/// comparing) computes.
#[verifier::external_body]
fn decimal_less(a: Dec, b: Dec) -> (r: bool)
    requires
        a.wf(),
        b.wf(),
    ensures
        r == (a.units() < b.units()),
{
    let x = rust_decimal::Decimal::from_i128_with_scale(a.mantissa, a.scale);
    let y = rust_decimal::Decimal::from_i128_with_scale(b.mantissa, b.scale);
    x < y
}

/// Calls `rust_decimal::Decimal::checked_add`. Claims: the result is named by
/// `decimal_add`; a returned number is in range (96-bit mantissa, scale at
/// most 28) and differs from the exact sum by less than one whole unit (the
/// crate keeps as many digits as fit and rounds only the digits it drops, so
/// it never rounds at a scale below zero), and rounding keeps the sign (the
/// sum of two non-negative numbers is non-negative); and when the exact sum is far inside the representable range
/// (|a| + |b| at most 2^95 whole units, while the range reaches 2^96 - 1) the
/// call does not report overflow.
#[verifier::external_body]
fn decimal_checked_add(a: Dec, b: Dec) -> (r: Option<Dec>)
    requires
        a.wf(),
        b.wf(),
    ensures
        opt_view(r) == decimal_add(a@, b@),
        r matches Some(x) ==> x.wf() && abs_int(x.units()) <= abs_int(a.units()) + abs_int(
            b.units(),
        ) + one_units(),
        abs_int(a.units()) + abs_int(b.units()) <= safe_units() ==> r is Some,
        r matches Some(x) ==> (a.units() >= 0 && b.units() >= 0 ==> x.units() >= 0),
{
    let x = rust_decimal::Decimal::from_i128_with_scale(a.mantissa, a.scale);
    let y = rust_decimal::Decimal::from_i128_with_scale(b.mantissa, b.scale);
    match x.checked_add(y) {
        Some(z) => Some(Dec { mantissa: z.mantissa(), scale: z.scale() }),
        None => None,
    }
}

/// Calls `rust_decimal::Decimal::checked_sub`. Claims the same as for
/// `decimal_checked_add`, for the difference, named by `decimal_sub`: in range,
/// within one whole unit of the exact difference, of the sign of the exact
/// difference (zero only when the numbers are equal: the crate never rounds a
/// non-zero difference to zero), and no overflow when
/// |a| + |b| is at most 2^95 whole units.
#[verifier::external_body]
fn decimal_checked_sub(a: Dec, b: Dec) -> (r: Option<Dec>)
    requires
        a.wf(),
        b.wf(),
    ensures
        opt_view(r) == decimal_sub(a@, b@),
        r matches Some(x) ==> x.wf() && abs_int(x.units()) <= abs_int(a.units()) + abs_int(
            b.units(),
        ) + one_units(),
        abs_int(a.units()) + abs_int(b.units()) <= safe_units() ==> r is Some,
        r matches Some(x) ==> (a.units() >= b.units() ==> x.units() >= 0) && (a.units()
            <= b.units() ==> x.units() <= 0),
        r matches Some(x) ==> (a.units() > b.units() ==> x.units() > 0) && (a.units()
            < b.units() ==> x.units() < 0),
{
    let x = rust_decimal::Decimal::from_i128_with_scale(a.mantissa, a.scale);
    let y = rust_decimal::Decimal::from_i128_with_scale(b.mantissa, b.scale);
    match x.checked_sub(y) {
        Some(z) => Some(Dec { mantissa: z.mantissa(), scale: z.scale() }),
        None => None,
    }
}

/// Calls `rust_decimal::Decimal::checked_mul`. Claims: the result is named by
/// `decimal_mul`; a returned number is in range and differs from the exact
/// product by less than one whole unit, non-negative when both factors are;
/// and when the exact product
/// has magnitude at most 2^95 whole units the call does not report overflow
/// (it rounds to fewer digits instead).
#[verifier::external_body]
fn decimal_checked_mul(a: Dec, b: Dec) -> (r: Option<Dec>)
    requires
        a.wf(),
        b.wf(),
    ensures
        opt_view(r) == decimal_mul(a@, b@),
        r matches Some(x) ==> x.wf() && abs_int(x.units()) * one_units() <= abs_int(a.units())
            * abs_int(b.units()) + one_units() * one_units(),
        abs_int(a.units()) * abs_int(b.units()) <= safe_units() * one_units() ==> r is Some,
        r matches Some(x) ==> (a.units() >= 0 && b.units() >= 0 ==> x.units() >= 0),
{
    let x = rust_decimal::Decimal::from_i128_with_scale(a.mantissa, a.scale);
    let y = rust_decimal::Decimal::from_i128_with_scale(b.mantissa, b.scale);
    match x.checked_mul(y) {
        Some(z) => Some(Dec { mantissa: z.mantissa(), scale: z.scale() }),
        None => None,
    }
}

/// Calls `rust_decimal::Decimal::checked_div`. Claims: the result is named by
/// `decimal_div`; a returned number is in range and differs from the exact
/// quotient by less than one whole unit, non-negative for a non-negative
/// dividend and positive divisor; a zero divisor gives `None`;
/// and a non-zero divisor with an exact quotient of magnitude at most 2^95
/// whole units gives a number.
#[verifier::external_body]
fn decimal_checked_div(a: Dec, b: Dec) -> (r: Option<Dec>)
    requires
        a.wf(),
        b.wf(),
    ensures
        opt_view(r) == decimal_div(a@, b@),
        r matches Some(x) ==> x.wf() && abs_int(x.units()) * abs_int(b.units()) <= abs_int(
            a.units(),
        ) * one_units() + one_units() * abs_int(b.units()),
        b.units() == 0 ==> r is None,
        b.units() != 0 && abs_int(a.units()) * one_units() <= safe_units() * abs_int(b.units())
            ==> r is Some,
        r matches Some(x) ==> (a.units() >= 0 && b.units() > 0 ==> x.units() >= 0),
{
    let x = rust_decimal::Decimal::from_i128_with_scale(a.mantissa, a.scale);
    let y = rust_decimal::Decimal::from_i128_with_scale(b.mantissa, b.scale);
    match x.checked_div(y) {
        Some(z) => Some(Dec { mantissa: z.mantissa(), scale: z.scale() }),
        None => None,
    }
}

/// Calls `rust_decimal::Decimal::floor`. Claims what its documentation says,
/// the largest whole number not above the input, and what its source shows of
/// the representation: the result has scale 0 (an input of scale 0 is
/// returned as it is; otherwise the fraction is truncated to scale 0, and one
/// is subtracted at scale 0 when a negative number had a fraction).
#[verifier::external_body]
fn decimal_floor(a: Dec) -> (r: Dec)
    requires
        a.wf(),
    ensures
        r.wf(),
        r@ == (a.units() / one_units(), 0int),
{
    let x = rust_decimal::Decimal::from_i128_with_scale(a.mantissa, a.scale);
    let z = x.floor();
    Dec { mantissa: z.mantissa(), scale: z.scale() }
}

/// Calls `<rust_decimal::Decimal as FromStr>::from_str`. Claims the outcome
/// is named by `decimal_parse` (the number, or the `Display` text of the
/// error) and that a parsed number is in range.
#[verifier::external_body]
fn decimal_from_text(s: &str) -> (r: Result<Dec, String>)
    ensures
        r matches Ok(d) ==> (decimal_parse(s@) is Ok && decimal_parse(s@)->Ok_0 == d@ && d.wf()),
        r matches Err(m) ==> (decimal_parse(s@) is Err && decimal_parse(s@)->Err_0 == m@),
{
    match s.parse::<rust_decimal::Decimal>() {
        Ok(z) => Ok(Dec { mantissa: z.mantissa(), scale: z.scale() }),
        Err(e) => Err(e.to_string()),
    }
}

/// Calls `rust_decimal::Decimal`'s `to_string`. Claims the text is named by
/// `decimal_text` (it depends on mantissa and scale alone).
#[verifier::external_body]
fn decimal_to_text(a: Dec) -> (r: String)
    requires
        a.wf(),
    ensures
        r@ == decimal_text(a@),
{
    rust_decimal::Decimal::from_i128_with_scale(a.mantissa, a.scale).to_string()
}

/// Whether the parts are in range; used by `==` so that it never fails.
pub open spec fn dec_eq_spec(a: Dec, b: Dec) -> bool {
    if a.wf() && b.wf() {
        a.units() == b.units()
    } else {
        a.mantissa == b.mantissa && a.scale == b.scale
    }
}

impl PartialEq for Dec {
    fn eq(&self, other: &Dec) -> (r: bool) {
        let both_in_range = self.scale <= MAX_SCALE && -MAX_MANTISSA <= self.mantissa
            && self.mantissa <= MAX_MANTISSA && other.scale <= MAX_SCALE && -MAX_MANTISSA
            <= other.mantissa && other.mantissa <= MAX_MANTISSA;
        if both_in_range {
            self.eq_value(*other)
        } else {
            self.mantissa == other.mantissa && self.scale == other.scale
        }
    }
}

impl vstd::std_specs::cmp::PartialEqSpecImpl for Dec {
    open spec fn obeys_eq_spec() -> bool {
        true
    }

    open spec fn eq_spec(&self, other: &Dec) -> bool {
        dec_eq_spec(*self, *other)
    }
}

/// Adding or subtracting `a` and `b` cannot overflow: `|a| + |b| <= 2^95`
/// whole units.
pub open spec fn addable(a: Dec, b: Dec) -> bool {
    abs_int(a.units()) + abs_int(b.units()) <= safe_units()
}

/// The decimal `(|m|, s)` for the view `(m, s)`.
pub open spec fn view_abs(v: (int, int)) -> (int, int) {
    (abs_int(v.0), v.1)
}

/// `|d|` is at most `whole` whole units.
pub open spec fn within(d: Dec, whole: int) -> bool {
    abs_int(d.units()) <= whole * one_units()
}

/// A divisor `d` with `|d| * 2^32 >= 1` whole unit (or zero).
pub open spec fn not_tiny(d: Dec) -> bool {
    d.units() == 0 || abs_int(d.units()) * 4294967296 >= one_units()
}

/// A quotient of something at most `x` whole units by something at least
/// `1/y` whole units is representable when `x * y <= 2^95`, and is at most
/// `x * y + 1` whole units.
pub proof fn lemma_quotient_bounds(a: int, b: int, q: int, x: int, y: int)
    requires
        0 <= a <= x * one_units(),
        b > 0,
        b * y >= one_units(),
        x >= 0,
        y >= 1,
        x * y <= 39614081257132168796771975168,
        0 <= q,
        q * b <= a * one_units() + one_units() * b,
    ensures
        a * one_units() <= safe_units() * b,
        q <= (x * y + 1) * one_units(),
{
    let c = one_units();
    assert(a * c <= x * c * c) by (nonlinear_arith)
        requires
            0 <= a <= x * c,
            c > 0,
    ;
    assert(x * c * c <= x * c * (y * b)) by (nonlinear_arith)
        requires
            b * y >= c,
            c > 0,
            x >= 0,
    ;
    assert(x * c * (y * b) == (x * y) * c * b) by (nonlinear_arith);
    assert((x * y) * c * b <= 39614081257132168796771975168 * c * b) by (nonlinear_arith)
        requires
            x * y <= 39614081257132168796771975168,
            c > 0,
            b > 0,
    ;
    assert(q * b <= ((x * y + 1) * c) * b) by (nonlinear_arith)
        requires
            q * b <= a * c + c * b,
            a * c <= x * c * (y * b),
            x * c * (y * b) == (x * y) * c * b,
    ;
    assert(q <= (x * y + 1) * c) by (nonlinear_arith)
        requires
            q * b <= ((x * y + 1) * c) * b,
            b > 0,
    ;
}

/// A product of two numbers at most `x` and `y` whole units, with
/// `x * y <= 2^95`, is representable and at most `x * y + 1` whole units.
pub proof fn lemma_product_bounds(a: int, b: int, p: int, x: int, y: int)
    requires
        0 <= a <= x * one_units(),
        0 <= b <= y * one_units(),
        x >= 0,
        y >= 0,
        x * y <= 39614081257132168796771975168,
        0 <= p,
        p * one_units() <= a * b + one_units() * one_units(),
    ensures
        a * b <= safe_units() * one_units(),
        p <= (x * y + 1) * one_units(),
{
    let c = one_units();
    assert(a * b <= (x * c) * (y * c)) by (nonlinear_arith)
        requires
            0 <= a <= x * c,
            0 <= b <= y * c,
    ;
    assert((x * c) * (y * c) == (x * y) * c * c) by (nonlinear_arith);
    assert((x * y) * c * c <= 39614081257132168796771975168 * c * c) by (nonlinear_arith)
        requires
            x * y <= 39614081257132168796771975168,
            c > 0,
    ;
    assert(p * c <= ((x * y + 1) * c) * c) by (nonlinear_arith)
        requires
            p * c <= a * b + c * c,
            a * b <= (x * y) * c * c,
    ;
    assert(p <= (x * y + 1) * c) by (nonlinear_arith)
        requires
            p * c <= ((x * y + 1) * c) * c,
            c > 0,
    ;
}

/// `10^m <= 10^n` for `m <= n`.
pub proof fn lemma_pow10_monotonic(m: nat, n: nat)
    requires
        m <= n,
    ensures
        pow10(m) <= pow10(n),
    decreases n,
{
    lemma_pow10_positive(n);
    if m < n {
        lemma_pow10_monotonic(m, (n - 1) as nat);
    }
}

/// A decimal in range has magnitude at most `2^96 - 1` whole units.
pub proof fn lemma_units_bound(d: Dec)
    requires
        d.wf(),
    ensures
        abs_int(d.units()) <= MAX_MANTISSA * one_units(),
{
    let p = pow10((28 - d.scale) as nat);
    lemma_pow10_monotonic((28 - d.scale) as nat, 28);
    lemma_pow10_positive((28 - d.scale) as nat);
    lemma_pow10_28();
    assert(abs_int(d.mantissa * p) <= MAX_MANTISSA * one_units()) by (nonlinear_arith)
        requires
            -MAX_MANTISSA <= d.mantissa <= MAX_MANTISSA,
            1 <= p <= one_units(),
    ;
}

} // verus!
