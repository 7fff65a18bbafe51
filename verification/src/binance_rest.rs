//! What the Binance USD-M futures REST client computes: request URLs and
//! parameters, the signed query string (parameters sorted by name,
//! HMAC-SHA256 signature), the outcome of a response, open positions from the
//! position-risk rows, and klines from the rows of the kline endpoint. The
//! HTTP requests themselves are made outside the library.

use vstd::prelude::*;

use crate::decimal::{decimal_parse, Dec};
use crate::text::{decimal_digits, i64_text, owned, signed_digits, u64_text, usize_text};
use crate::value_objects::{Price, Quantity, Side};
use crate::idempotency::hex_of;
use vstd::utf8::encode_utf8;

verus! {

/// USD-M futures REST base URL.
pub const BINANCE_FUTURES_API_URL: &'static str = "https://fapi.binance.com";

/// USD-M futures testnet REST base URL.
pub const BINANCE_FUTURES_TESTNET_API_URL: &'static str = "https://testnet.binancefuture.com";

/// The base URL: production or testnet.
pub fn futures_base_url(testnet: bool) -> (r: &'static str)
    ensures
        r@ == (if testnet {
            "https://testnet.binancefuture.com"@
        } else {
            "https://fapi.binance.com"@
        }),
{
    if testnet {
        BINANCE_FUTURES_TESTNET_API_URL
    } else {
        BINANCE_FUTURES_API_URL
    }
}

// =============================================================================
// Errors
// =============================================================================
/// Errors of the REST client.
#[derive(Debug, Clone, PartialEq)]
pub enum BinanceRestError {
    /// Failed to build the request signature
    SignatureError(String),
    /// HTTP request failed
    RequestFailed(String),
    /// The API returned an error
    ApiError {
        /// Binance error code
        code: i64,
        /// Binance error message
        msg: String,
    },
    /// Failed to parse a response
    ParseError(String),
    /// Request timed out
    Timeout,
    /// Invalid parameter
    InvalidParameter(String),
    /// Position not found
    PositionNotFound(String),
}

impl BinanceRestError {
    /// The error message.
    pub fn display(&self) -> (r: String)
        ensures
            r@ == match self {
                BinanceRestError::SignatureError(m) => "Failed to build signature: "@ + m@,
                BinanceRestError::RequestFailed(m) => "HTTP request failed: "@ + m@,
                BinanceRestError::ApiError { code, msg } => "Binance API error: "@
                    + signed_digits(*code as int) + " - "@ + msg@,
                BinanceRestError::ParseError(m) => "Failed to parse response: "@ + m@,
                BinanceRestError::Timeout => "Request timed out"@,
                BinanceRestError::InvalidParameter(m) => "Invalid parameter: "@ + m@,
                BinanceRestError::PositionNotFound(m) => "Position not found for symbol: "@ + m@,
            },
    {
        match self {
            BinanceRestError::SignatureError(m) => {
                let mut s = owned("Failed to build signature: ");
                s.append(m.as_str());
                s
            },
            BinanceRestError::RequestFailed(m) => {
                let mut s = owned("HTTP request failed: ");
                s.append(m.as_str());
                s
            },
            BinanceRestError::ApiError { code, msg } => {
                let mut s = owned("Binance API error: ");
                s.append(i64_text(*code).as_str());
                s.append(" - ");
                s.append(msg.as_str());
                s
            },
            BinanceRestError::ParseError(m) => {
                let mut s = owned("Failed to parse response: ");
                s.append(m.as_str());
                s
            },
            BinanceRestError::Timeout => owned("Request timed out"),
            BinanceRestError::InvalidParameter(m) => {
                let mut s = owned("Invalid parameter: ");
                s.append(m.as_str());
                s
            },
            BinanceRestError::PositionNotFound(m) => {
                let mut s = owned("Position not found for symbol: ");
                s.append(m.as_str());
                s
            },
        }
    }
}

// =============================================================================
// Signed query
// =============================================================================
/// Whether `a` sorts before or with `b`: lexicographic order of characters
/// (the byte order of their UTF-8 encodings).
pub open spec fn text_le(a: Seq<char>, b: Seq<char>) -> bool
    decreases a.len(),
{
    if a.len() == 0 {
        true
    } else if b.len() == 0 {
        false
    } else if a[0] != b[0] {
        (a[0] as u32) < (b[0] as u32)
    } else {
        text_le(a.drop_first(), b.drop_first())
    }
}

/// Whether `a <= b` in lexicographic order.
fn str_le(a: &str, b: &str) -> (r: bool)
    ensures
        r == text_le(a@, b@),
{
    let n = a.unicode_len();
    let m = b.unicode_len();
    let mut i: usize = 0;
    assert(a@.skip(0) =~= a@);
    assert(b@.skip(0) =~= b@);
    while i < n && i < m
        invariant
            n == a@.len(),
            m == b@.len(),
            i <= n,
            i <= m,
            forall|k: int| 0 <= k < i ==> a@[k] == b@[k],
            text_le(a@, b@) == text_le(a@.skip(i as int), b@.skip(i as int)),
        decreases n - i,
    {
        let x = a.get_char(i);
        let y = b.get_char(i);
        assert(a@.skip(i as int)[0] == x);
        assert(b@.skip(i as int)[0] == y);
        if x != y {
            return (x as u32) < (y as u32);
        }
        assert(a@.skip(i as int).drop_first() =~= a@.skip(i + 1));
        assert(b@.skip(i as int).drop_first() =~= b@.skip(i + 1));
        i = i + 1;
    }
    i == n
}

/// A query parameter: name and value.
pub type QueryParam = (String, String);

/// The parameters inserted one by one, each after the last one whose name
/// sorts before or with its own (a stable sort by name).
pub open spec fn insert_param(s: Seq<(Seq<char>, Seq<char>)>, x: (Seq<char>, Seq<char>)) -> Seq<
    (Seq<char>, Seq<char>),
>
    decreases s.len(),
{
    if s.len() == 0 || text_le(s.last().0, x.0) {
        s.push(x)
    } else {
        insert_param(s.drop_last(), x).push(s.last())
    }
}

/// The parameters stably sorted by name.
pub open spec fn sorted_params(s: Seq<(Seq<char>, Seq<char>)>) -> Seq<(Seq<char>, Seq<char>)>
    decreases s.len(),
{
    if s.len() == 0 {
        Seq::empty()
    } else {
        insert_param(sorted_params(s.drop_last()), s.last())
    }
}

/// `name=value` pairs joined with `&`.
pub open spec fn query_text(s: Seq<(Seq<char>, Seq<char>)>) -> Seq<char>
    decreases s.len(),
{
    if s.len() == 0 {
        Seq::empty()
    } else if s.len() == 1 {
        s[0].0 + "="@ + s[0].1
    } else {
        query_text(s.drop_last()) + "&"@ + s.last().0 + "="@ + s.last().1
    }
}

/// The views of the parameters.
pub open spec fn param_views(s: Seq<QueryParam>) -> Seq<(Seq<char>, Seq<char>)> {
    s.map_values(|p: QueryParam| (p.0@, p.1@))
}

/// What HMAC-SHA256 gives for the key and the message.
pub uninterp spec fn hmac_sha256_of(key: Seq<u8>, message: Seq<u8>) -> Seq<u8>;

/// Calls `hmac::Hmac::<sha2::Sha256>::new_from_slice`, `update` and
/// `finalize`. Claims the MAC is named by `hmac_sha256_of` and has 32 bytes,
/// and that a key of any length is accepted (the crate's `new_from_slice`
/// for HMAC always returns `Ok`, hashing keys longer than a block).
#[verifier::external_body]
fn hmac_sha256(key: &Vec<u8>, message: &Vec<u8>) -> (r: Option<Vec<u8>>)
    ensures
        r is Some,
        r matches Some(v) ==> v@ == hmac_sha256_of(key@, message@) && v@.len() == 32,
{
    match <hmac::Hmac<sha2::Sha256> as hmac::Mac>::new_from_slice(key.as_slice()) {
        Ok(mut mac) => {
            hmac::Mac::update(&mut mac, message.as_slice());
            Some(hmac::Mac::finalize(mac).into_bytes().to_vec())
        },
        Err(_) => None,
    }
}

proof fn lemma_insert_param_at(
    s: Seq<(Seq<char>, Seq<char>)>,
    x: (Seq<char>, Seq<char>),
    j: int,
)
    requires
        0 <= j <= s.len(),
        forall|k: int| j <= k < s.len() ==> !text_le(#[trigger] s[k].0, x.0),
        j == 0 || text_le(s[j - 1].0, x.0),
    ensures
        insert_param(s, x) == s.insert(j, x),
    decreases s.len(),
{
    if j == s.len() {
        assert(s.insert(j, x) =~= s.push(x));
    } else {
        let t = s.drop_last();
        assert forall|k: int| j <= k < t.len() implies !text_le(#[trigger] t[k].0, x.0) by {
            assert(t[k] == s[k]);
        }
        lemma_insert_param_at(t, x, j);
        assert(t.insert(j, x).push(s.last()) =~= s.insert(j, x));
    }
}

/// The parameters stably sorted by name.
fn sort_params(params: Vec<QueryParam>) -> (r: Vec<QueryParam>)
    ensures
        param_views(r@) == sorted_params(param_views(params@)),
{
    let mut out: Vec<QueryParam> = Vec::new();
    let n = params.len();
    let mut i: usize = 0;
    while i < n
        invariant
            n == params@.len(),
            i <= n,
            param_views(out@) == sorted_params(param_views(params@.take(i as int))),
        decreases n - i,
    {
        let x: QueryParam = (params[i].0.clone(), params[i].1.clone());
        let mut j = out.len();
        while j > 0 && !str_le(out[j - 1].0.as_str(), x.0.as_str())
            invariant
                j <= out@.len(),
                forall|k: int| j <= k < out@.len() ==> !text_le(#[trigger] param_views(out@)[k].0, x.0@),
            decreases j,
        {
            j = j - 1;
        }
        proof {
            let v = param_views(out@);
            assert(param_views(params@.take(i + 1)).drop_last() =~= param_views(params@.take(i as int)));
            assert(param_views(params@.take(i + 1)).last() == (x.0@, x.1@));
            lemma_insert_param_at(v, (x.0@, x.1@), j as int);
        }
        let ghost before = out@;
        out.insert(j, x);
        assert(param_views(out@) =~= param_views(before).insert(j as int, (x.0@, x.1@)));
        i = i + 1;
    }
    assert(params@.take(n as int) =~= params@);
    out
}

/// `name=value` pairs joined with `&`.
fn join_params(params: &Vec<QueryParam>) -> (r: String)
    ensures
        r@ == query_text(param_views(params@)),
{
    let mut out = String::new();
    let n = params.len();
    let mut i: usize = 0;
    while i < n
        invariant
            n == params@.len(),
            i <= n,
            out@ == query_text(param_views(params@.take(i as int))),
        decreases n - i,
    {
        proof {
            reveal_strlit("&");
            reveal_strlit("=");
            assert(param_views(params@.take(i + 1)).drop_last() =~= param_views(params@.take(i as int)));
        }
        if i > 0 {
            out.append("&");
        }
        out.append(params[i].0.as_str());
        out.append("=");
        out.append(params[i].1.as_str());
        proof {
            if i == 0 {
                assert(param_views(params@.take(1))[0] == (params@[0].0@, params@[0].1@));
                assert(out@ =~= query_text(param_views(params@.take(1))));
            } else {
                assert(out@ =~= query_text(param_views(params@.take(i + 1))));
            }
        }
        i = i + 1;
    }
    assert(params@.take(n as int) =~= params@);
    out
}

/// The query string a signed request sends: the parameters and the
/// `timestamp` parameter, stably sorted by name, joined as `name=value`
/// with `&`.
pub open spec fn signed_query_base(params: Seq<QueryParam>, timestamp_ms: i64) -> Seq<char> {
    query_text(
        sorted_params(param_views(params).push(("timestamp"@, signed_digits(timestamp_ms as int)))),
    )
}

/// The signed query: the sorted query string, then `&signature=` and the
/// lowercase hexadecimal HMAC-SHA256 of that string under the secret.
pub fn build_signed_query(api_secret: &str, params: Vec<QueryParam>, timestamp_ms: i64) -> (r: Result<
    String,
    BinanceRestError,
>)
    ensures
        r matches Ok(q) && q@ == signed_query_base(params@, timestamp_ms) + "&signature="@ + hex_of(
            hmac_sha256_of(
                encode_utf8(api_secret@),
                encode_utf8(signed_query_base(params@, timestamp_ms)),
            ),
        ),
{
    let mut params = params;
    let ghost given = params@;
    params.push((owned("timestamp"), i64_text(timestamp_ms)));
    proof {
        reveal_strlit("timestamp");
        assert(param_views(params@) =~= param_views(given).push(
            ("timestamp"@, signed_digits(timestamp_ms as int)),
        ));
    }
    let sorted = sort_params(params);
    let query = join_params(&sorted);
    let key = api_secret.as_bytes_vec();
    let message = query.as_str().as_bytes_vec();
    match hmac_sha256(&key, &message) {
        Some(mac) => {
            let mut out = query;
            out.append("&signature=");
            out.append(crate::idempotency::hex_encode(&mac).as_str());
            Ok(out)
        },
        None => Err(BinanceRestError::SignatureError(owned("HMAC error"))),
    }
}

// =============================================================================
// Positions
// =============================================================================
/// A row of the position-risk response, as it was read.
#[derive(Debug, Clone)]
pub struct PositionRisk {
    /// Trading symbol
    pub symbol: String,
    /// Signed position amount (positive long, negative short)
    pub position_amt: Dec,
    /// Entry price
    pub entry_price: Dec,
    /// Unrealized profit
    pub unrealized_profit: Dec,
    /// Leverage as text
    pub leverage: String,
}

/// An open USD-M futures position.
#[derive(Debug, Clone)]
pub struct FuturesPosition {
    /// Trading symbol (e.g. BTCUSDT)
    pub symbol: String,
    /// Long if the amount is positive, Short if negative
    pub side: Side,
    /// Absolute amount
    pub quantity: Quantity,
    /// Entry price
    pub entry_price: Price,
    /// Unrealized PnL
    pub unrealized_pnl: Dec,
    /// Current leverage
    pub leverage: u8,
}

/// What `str::parse::<u8>` gives: the number, or the text of the error.
pub uninterp spec fn u8_parse(s: Seq<char>) -> Result<u8, Seq<char>>;

/// Whether the text is one or more ASCII decimal digits.
pub open spec fn all_digits(s: Seq<char>) -> bool {
    s.len() > 0 && forall|i: int| 0 <= i < s.len() ==> '0' <= #[trigger] s[i] <= '9'
}

/// The number the ASCII decimal digits write.
pub open spec fn digits_value(s: Seq<char>) -> nat
    decreases s.len(),
{
    if s.len() == 0 {
        0
    } else {
        digits_value(s.drop_last()) * 10 + ((s.last() as u32) - ('0' as u32)) as nat
    }
}

/// The digits of an unsigned number's text: without its optional leading `+`.
pub open spec fn unsigned_digits(s: Seq<char>) -> Seq<char> {
    if s.len() > 0 && s[0] == '+' {
        s.drop_first()
    } else {
        s
    }
}

/// Whether the text is an optional `+` then digits worth at most 255.
pub open spec fn fits_u8(s: Seq<char>) -> bool {
    all_digits(unsigned_digits(s)) && digits_value(unsigned_digits(s)) <= 255
}

/// Calls `str::parse::<u8>`. Claims the outcome is named by `u8_parse`: the
/// number, or the `Display` text of the `ParseIntError`; and what the
/// documentation of `u8::from_str` says: an optional `+` then one or more
/// digits is the number when it is at most 255 and an error above; anything
/// else is an error. Which error text comes is not stated.
#[verifier::external_body]
fn parse_u8(s: &str) -> (r: Result<u8, String>)
    ensures
        r matches Ok(v) ==> (u8_parse(s@) is Ok && u8_parse(s@)->Ok_0 == v),
        r matches Err(m) ==> (u8_parse(s@) is Err && u8_parse(s@)->Err_0 == m@),
        fits_u8(s@) ==> r is Ok && r->Ok_0 as nat == digits_value(unsigned_digits(s@)),
        !fits_u8(s@) ==> r is Err,
{
    match s.parse::<u8>() {
        Ok(v) => Ok(v),
        Err(e) => Err(e.to_string()),
    }
}

/// The position a non-zero row describes, or why it cannot be read.
pub open spec fn position_of_row(row: PositionRisk) -> Result<FuturesPosition, Seq<char>> {
    if u8_parse(row.leverage@) is Err {
        Err("Invalid leverage '"@ + row.leverage@ + "': "@ + u8_parse(row.leverage@)->Err_0)
    } else if row.entry_price.units() <= 0 {
        Err("Invalid entry price: Invalid price: Price must be positive"@)
    } else {
        Ok(
            FuturesPosition {
                symbol: row.symbol,
                side: if row.position_amt.units() > 0 {
                    Side::Long
                } else {
                    Side::Short
                },
                quantity: Quantity(
                    Dec {
                        mantissa: crate::decimal::abs_int(row.position_amt.mantissa as int) as i128,
                        scale: row.position_amt.scale,
                    },
                ),
                entry_price: Price(row.entry_price),
                unrealized_pnl: row.unrealized_profit,
                leverage: u8_parse(row.leverage@)->Ok_0,
            },
        )
    }
}

/// The positions of the rows with a non-zero amount, in order, or the
/// error of the first such row that cannot be read.
pub open spec fn positions_of(rows: Seq<PositionRisk>) -> Result<Seq<FuturesPosition>, Seq<char>>
    decreases rows.len(),
{
    if rows.len() == 0 {
        Ok(Seq::empty())
    } else {
        match positions_of(rows.drop_last()) {
            Err(e) => Err(e),
            Ok(ps) => if rows.last().position_amt.units() == 0 {
                Ok(ps)
            } else {
                match position_of_row(rows.last()) {
                    Ok(p) => Ok(ps.push(p)),
                    Err(e) => Err(e),
                }
            },
        }
    }
}

/// Once a prefix of the rows fails, the whole rows fail with its error.
proof fn lemma_error_persists(rows: Seq<PositionRisk>, k: int, e: Seq<char>)
    requires
        0 <= k <= rows.len(),
        positions_of(rows.take(k)) == Err::<Seq<FuturesPosition>, Seq<char>>(e),
    ensures
        positions_of(rows) == Err::<Seq<FuturesPosition>, Seq<char>>(e),
    decreases rows.len() - k,
{
    if k == rows.len() {
        assert(rows.take(k) =~= rows);
    } else {
        assert(rows.take(k + 1).drop_last() =~= rows.take(k));
        lemma_error_persists(rows, k + 1, e);
    }
}

/// The open positions of the position-risk rows: rows with a zero amount
/// are skipped; the side is the amount's sign and the quantity its absolute
/// value.
pub fn open_positions_from(rows: &Vec<PositionRisk>) -> (r: Result<Vec<FuturesPosition>, BinanceRestError>)
    requires
        forall|i: int|
            0 <= i < rows@.len() ==> (#[trigger] rows@[i]).position_amt.wf()
                && rows@[i].entry_price.wf(),
    ensures
        match positions_of(rows@) {
            Ok(ps) => r matches Ok(v) && v@ == ps,
            Err(e) => r matches Err(BinanceRestError::ParseError(m)) && m@ == e,
        },
{
    let mut out: Vec<FuturesPosition> = Vec::new();
    let n = rows.len();
    let mut i: usize = 0;
    while i < n
        invariant
            n == rows@.len(),
            i <= n,
            forall|k: int|
                0 <= k < rows@.len() ==> (#[trigger] rows@[k]).position_amt.wf()
                    && rows@[k].entry_price.wf(),
            positions_of(rows@.take(i as int)) == Ok::<Seq<FuturesPosition>, Seq<char>>(out@),
        decreases n - i,
    {
        let row = &rows[i];
        proof {
            assert(rows@.take(i + 1).drop_last() =~= rows@.take(i as int));
            assert(rows@.take(i + 1).last() == rows@[i as int]);
            reveal_strlit("Invalid entry price: Invalid price: Price must be positive");
        }
        if !row.position_amt.is_zero() {
            let leverage = match parse_u8(row.leverage.as_str()) {
                Ok(v) => v,
                Err(e) => {
                    let mut m = owned("Invalid leverage '");
                    m.append(row.leverage.as_str());
                    m.append("': ");
                    m.append(e.as_str());
                    proof {
                        reveal_strlit("Invalid leverage '");
                        reveal_strlit("': ");
                        lemma_error_persists(rows@, i + 1, m@);
                    }
                    return Err(BinanceRestError::ParseError(m));
                },
            };
            let side = if row.position_amt.gt(Dec::zero()) {
                Side::Long
            } else {
                Side::Short
            };
            let quantity = Quantity(row.position_amt.abs());
            let entry_price = match Price::new(row.entry_price) {
                Ok(p) => p,
                Err(e) => {
                    let mut m = owned("Invalid entry price: ");
                    m.append(e.display().as_str());
                    proof {
                        reveal_strlit("Invalid entry price: ");
                        reveal_strlit("Invalid price: ");
                        reveal_strlit("Price must be positive");
                        assert(m@ =~= "Invalid entry price: Invalid price: Price must be positive"@);
                        lemma_error_persists(rows@, i + 1, m@);
                    }
                    return Err(BinanceRestError::ParseError(m));
                },
            };
            out.push(
                FuturesPosition {
                    symbol: row.symbol.clone(),
                    side,
                    quantity,
                    entry_price,
                    unrealized_pnl: row.unrealized_profit,
                    leverage,
                },
            );
        }
        i = i + 1;
    }
    assert(rows@.take(n as int) =~= rows@);
    Ok(out)
}

// =============================================================================
// Klines
// =============================================================================
/// A JSON value of a kline row, as the logic reads it.
#[derive(Debug, Clone, PartialEq)]
pub enum KlineValue {
    /// A string
    Str(String),
    /// An integer number (within the range of `i64` or `u64`)
    Int(i128),
    /// Anything else (a float, a boolean, null, an array, an object)
    Other,
}

/// A parsed futures kline.
#[derive(Debug, Clone, Copy, PartialEq)]
pub struct BinanceKline {
    /// Open time (ms since epoch)
    pub open_time_ms: i64,
    /// Open price
    pub open: Dec,
    /// High price
    pub high: Dec,
    /// Low price
    pub low: Dec,
    /// Close price
    pub close: Dec,
    /// Base asset volume
    pub volume: Dec,
    /// Close time (ms since epoch)
    pub close_time_ms: i64,
    /// Number of trades
    pub trades: u64,
}

/// `"kline row {row} field {field} ({name}) is not a {expected}"`.
pub open spec fn field_error_text(row_idx: nat, field_idx: nat, field_name: Seq<char>, expected: Seq<char>) -> Seq<char> {
    "kline row "@ + decimal_digits(row_idx) + " field "@ + decimal_digits(field_idx) + " ("@
        + field_name + ") is not a "@ + expected
}

/// The error for a field of the wrong kind.
pub fn parse_field_error(row_idx: usize, field_idx: usize, field_name: &str, expected: &str) -> (r:
    BinanceRestError)
    ensures
        r matches BinanceRestError::ParseError(m) && m@ == field_error_text(
            row_idx as nat,
            field_idx as nat,
            field_name@,
            expected@,
        ),
{
    let mut m = owned("kline row ");
    m.append(usize_text(row_idx).as_str());
    m.append(" field ");
    m.append(usize_text(field_idx).as_str());
    m.append(" (");
    m.append(field_name);
    m.append(") is not a ");
    m.append(expected);
    BinanceRestError::ParseError(m)
}

/// The decimal in a string field, or why there is none.
pub open spec fn decimal_field(row: Seq<KlineValue>, row_idx: nat, field_idx: nat, name: Seq<char>) -> Result<(int, int), Seq<char>> {
    if field_idx < row.len() && row[field_idx as int] is Str {
        let raw = row[field_idx as int]->Str_0@;
        match decimal_parse(raw) {
            Ok(v) => Ok(v),
            Err(e) => Err(
                "failed to parse kline row "@ + decimal_digits(row_idx) + " field "@
                    + decimal_digits(field_idx) + " ("@ + name + ") as decimal: "@ + e,
            ),
        }
    } else {
        Err(field_error_text(row_idx, field_idx, name, "decimal string"@))
    }
}

/// The `i64` in an integer field, or why there is none.
pub open spec fn i64_field(row: Seq<KlineValue>, row_idx: nat, field_idx: nat, name: Seq<char>) -> Result<i64, Seq<char>> {
    if field_idx < row.len() && (row[field_idx as int] matches KlineValue::Int(n) && i64::MIN <= n
        <= i64::MAX) {
        Ok(row[field_idx as int]->Int_0 as i64)
    } else {
        Err(field_error_text(row_idx, field_idx, name, "integer"@))
    }
}

/// The `u64` in an integer field, or why there is none.
pub open spec fn u64_field(row: Seq<KlineValue>, row_idx: nat, field_idx: nat, name: Seq<char>) -> Result<u64, Seq<char>> {
    if field_idx < row.len() && (row[field_idx as int] matches KlineValue::Int(n) && 0 <= n
        <= u64::MAX) {
        Ok(row[field_idx as int]->Int_0 as u64)
    } else {
        Err(field_error_text(row_idx, field_idx, name, "unsigned integer"@))
    }
}

fn parse_decimal_field(row: &Vec<KlineValue>, row_idx: usize, field_idx: usize, field_name: &str) -> (r:
    Result<Dec, BinanceRestError>)
    ensures
        match decimal_field(row@, row_idx as nat, field_idx as nat, field_name@) {
            Ok(v) => r matches Ok(d) && d@ == v && d.wf(),
            Err(e) => r matches Err(BinanceRestError::ParseError(m)) && m@ == e,
        },
{
    proof {
        reveal_strlit("decimal string");
    }
    if field_idx < row.len() {
        match &row[field_idx] {
            KlineValue::Str(raw) => match Dec::parse_text(raw.as_str()) {
                Ok(d) => Ok(d),
                Err(e) => {
                    let mut m = owned("failed to parse kline row ");
                    m.append(usize_text(row_idx).as_str());
                    m.append(" field ");
                    m.append(usize_text(field_idx).as_str());
                    m.append(" (");
                    m.append(field_name);
                    m.append(") as decimal: ");
                    m.append(e.as_str());
                    Err(BinanceRestError::ParseError(m))
                },
            },
            _ => Err(parse_field_error(row_idx, field_idx, field_name, "decimal string")),
        }
    } else {
        Err(parse_field_error(row_idx, field_idx, field_name, "decimal string"))
    }
}

fn parse_i64_field(row: &Vec<KlineValue>, row_idx: usize, field_idx: usize, field_name: &str) -> (r:
    Result<i64, BinanceRestError>)
    ensures
        match i64_field(row@, row_idx as nat, field_idx as nat, field_name@) {
            Ok(v) => r == Ok::<i64, BinanceRestError>(v),
            Err(e) => r matches Err(BinanceRestError::ParseError(m)) && m@ == e,
        },
{
    proof {
        reveal_strlit("integer");
    }
    if field_idx < row.len() {
        match &row[field_idx] {
            KlineValue::Int(n) => if i64::MIN as i128 <= *n && *n <= i64::MAX as i128 {
                Ok(*n as i64)
            } else {
                Err(parse_field_error(row_idx, field_idx, field_name, "integer"))
            },
            _ => Err(parse_field_error(row_idx, field_idx, field_name, "integer")),
        }
    } else {
        Err(parse_field_error(row_idx, field_idx, field_name, "integer"))
    }
}

fn parse_u64_field(row: &Vec<KlineValue>, row_idx: usize, field_idx: usize, field_name: &str) -> (r:
    Result<u64, BinanceRestError>)
    ensures
        match u64_field(row@, row_idx as nat, field_idx as nat, field_name@) {
            Ok(v) => r == Ok::<u64, BinanceRestError>(v),
            Err(e) => r matches Err(BinanceRestError::ParseError(m)) && m@ == e,
        },
{
    proof {
        reveal_strlit("unsigned integer");
    }
    if field_idx < row.len() {
        match &row[field_idx] {
            KlineValue::Int(n) => if 0 <= *n && *n <= u64::MAX as i128 {
                Ok(*n as u64)
            } else {
                Err(parse_field_error(row_idx, field_idx, field_name, "unsigned integer"))
            },
            _ => Err(parse_field_error(row_idx, field_idx, field_name, "unsigned integer")),
        }
    } else {
        Err(parse_field_error(row_idx, field_idx, field_name, "unsigned integer"))
    }
}

/// The kline a row describes: open time (0), open (1), high (2), low (3),
/// close (4), volume (5), close time (6) and trades (8), read in that order;
/// the first unreadable field gives the error. A row of fewer than 9 fields
/// is refused.
pub open spec fn kline_of_row(row: Seq<KlineValue>, idx: nat) -> Result<BinanceKline, Seq<char>> {
    if row.len() < 9 {
        Err(
            "kline row "@ + decimal_digits(idx) + " has "@ + decimal_digits(row.len())
                + " fields, expected at least 9"@,
        )
    } else if i64_field(row, idx, 0, "open_time"@) is Err {
        Err(i64_field(row, idx, 0, "open_time"@)->Err_0)
    } else if decimal_field(row, idx, 1, "open"@) is Err {
        Err(decimal_field(row, idx, 1, "open"@)->Err_0)
    } else if decimal_field(row, idx, 2, "high"@) is Err {
        Err(decimal_field(row, idx, 2, "high"@)->Err_0)
    } else if decimal_field(row, idx, 3, "low"@) is Err {
        Err(decimal_field(row, idx, 3, "low"@)->Err_0)
    } else if decimal_field(row, idx, 4, "close"@) is Err {
        Err(decimal_field(row, idx, 4, "close"@)->Err_0)
    } else if decimal_field(row, idx, 5, "volume"@) is Err {
        Err(decimal_field(row, idx, 5, "volume"@)->Err_0)
    } else if i64_field(row, idx, 6, "close_time"@) is Err {
        Err(i64_field(row, idx, 6, "close_time"@)->Err_0)
    } else if u64_field(row, idx, 8, "trades"@) is Err {
        Err(u64_field(row, idx, 8, "trades"@)->Err_0)
    } else {
        Ok(
            BinanceKline {
                open_time_ms: i64_field(row, idx, 0, "open_time"@)->Ok_0,
                open: dec_of(decimal_field(row, idx, 1, "open"@)->Ok_0),
                high: dec_of(decimal_field(row, idx, 2, "high"@)->Ok_0),
                low: dec_of(decimal_field(row, idx, 3, "low"@)->Ok_0),
                close: dec_of(decimal_field(row, idx, 4, "close"@)->Ok_0),
                volume: dec_of(decimal_field(row, idx, 5, "volume"@)->Ok_0),
                close_time_ms: i64_field(row, idx, 6, "close_time"@)->Ok_0,
                trades: u64_field(row, idx, 8, "trades"@)->Ok_0,
            },
        )
    }
}

/// The decimal whose view is `v`.
pub open spec fn dec_of(v: (int, int)) -> Dec {
    Dec { mantissa: v.0 as i128, scale: v.1 as u32 }
}

/// Read one kline row.
fn parse_futures_kline(idx: usize, row: &Vec<KlineValue>) -> (r: Result<BinanceKline, BinanceRestError>)
    ensures
        match kline_of_row(row@, idx as nat) {
            Ok(k) => r == Ok::<BinanceKline, BinanceRestError>(k),
            Err(e) => r matches Err(BinanceRestError::ParseError(m)) && m@ == e,
        },
{
    proof {
        reveal_strlit("open_time");
        reveal_strlit("open");
        reveal_strlit("high");
        reveal_strlit("low");
        reveal_strlit("close");
        reveal_strlit("volume");
        reveal_strlit("close_time");
        reveal_strlit("trades");
    }
    if row.len() < 9 {
        let mut m = owned("kline row ");
        m.append(usize_text(idx).as_str());
        m.append(" has ");
        m.append(usize_text(row.len()).as_str());
        m.append(" fields, expected at least 9");
        return Err(BinanceRestError::ParseError(m));
    }
    let open_time_ms = match parse_i64_field(row, idx, 0, "open_time") {
        Ok(v) => v,
        Err(e) => return Err(e),
    };
    let open = match parse_decimal_field(row, idx, 1, "open") {
        Ok(v) => v,
        Err(e) => return Err(e),
    };
    let high = match parse_decimal_field(row, idx, 2, "high") {
        Ok(v) => v,
        Err(e) => return Err(e),
    };
    let low = match parse_decimal_field(row, idx, 3, "low") {
        Ok(v) => v,
        Err(e) => return Err(e),
    };
    let close = match parse_decimal_field(row, idx, 4, "close") {
        Ok(v) => v,
        Err(e) => return Err(e),
    };
    let volume = match parse_decimal_field(row, idx, 5, "volume") {
        Ok(v) => v,
        Err(e) => return Err(e),
    };
    let close_time_ms = match parse_i64_field(row, idx, 6, "close_time") {
        Ok(v) => v,
        Err(e) => return Err(e),
    };
    let trades = match parse_u64_field(row, idx, 8, "trades") {
        Ok(v) => v,
        Err(e) => return Err(e),
    };
    Ok(BinanceKline { open_time_ms, open, high, low, close, volume, close_time_ms, trades })
}

/// The klines of the rows, in order, or the error of the first row that
/// cannot be read.
pub open spec fn klines_of(rows: Seq<Vec<KlineValue>>) -> Result<Seq<BinanceKline>, Seq<char>>
    decreases rows.len(),
{
    if rows.len() == 0 {
        Ok(Seq::empty())
    } else {
        match klines_of(rows.drop_last()) {
            Err(e) => Err(e),
            Ok(ks) => match kline_of_row(rows.last()@, (rows.len() - 1) as nat) {
                Ok(k) => Ok(ks.push(k)),
                Err(e) => Err(e),
            },
        }
    }
}

proof fn lemma_kline_error_persists(rows: Seq<Vec<KlineValue>>, k: int, e: Seq<char>)
    requires
        0 <= k <= rows.len(),
        klines_of(rows.take(k)) == Err::<Seq<BinanceKline>, Seq<char>>(e),
    ensures
        klines_of(rows) == Err::<Seq<BinanceKline>, Seq<char>>(e),
    decreases rows.len() - k,
{
    if k == rows.len() {
        assert(rows.take(k) =~= rows);
    } else {
        assert(rows.take(k + 1).drop_last() =~= rows.take(k));
        lemma_kline_error_persists(rows, k + 1, e);
    }
}

/// Read the rows of the kline endpoint.
pub fn parse_futures_klines(rows: &Vec<Vec<KlineValue>>) -> (r: Result<Vec<BinanceKline>, BinanceRestError>)
    ensures
        match klines_of(rows@) {
            Ok(ks) => r matches Ok(v) && v@ == ks,
            Err(e) => r matches Err(BinanceRestError::ParseError(m)) && m@ == e,
        },
{
    let mut out: Vec<BinanceKline> = Vec::new();
    let n = rows.len();
    let mut i: usize = 0;
    while i < n
        invariant
            n == rows@.len(),
            i <= n,
            klines_of(rows@.take(i as int)) == Ok::<Seq<BinanceKline>, Seq<char>>(out@),
        decreases n - i,
    {
        proof {
            assert(rows@.take(i + 1).drop_last() =~= rows@.take(i as int));
            assert(rows@.take(i + 1).last() == rows@[i as int]);
        }
        match parse_futures_kline(i, &rows[i]) {
            Ok(k) => out.push(k),
            Err(e) => {
                proof {
                    lemma_kline_error_persists(rows@, i + 1, e->ParseError_0@);
                }
                return Err(e);
            },
        }
        i = i + 1;
    }
    assert(rows@.take(n as int) =~= rows@);
    Ok(out)
}

// =============================================================================
// Order responses
// =============================================================================
/// USD-M futures order response.
#[derive(Debug, Clone)]
pub struct BinanceOrderResponse {
    /// Symbol
    pub symbol: String,
    /// Order ID
    pub order_id: u64,
    /// Client order ID
    pub client_order_id: String,
    /// Update time (ms since epoch)
    pub update_time: i64,
    /// Price
    pub price: Dec,
    /// Average fill price
    pub avg_price: Dec,
    /// Ordered quantity
    pub orig_qty: Dec,
    /// Executed quantity
    pub executed_qty: Dec,
    /// Cumulative quote quantity
    pub cum_quote: Dec,
    /// Status
    pub status: String,
    /// Side
    pub side: String,
    /// Type
    pub order_type: String,
    /// Individual fills
    pub fills: Vec<BinanceFill>,
}

/// Individual fill of an order response.
#[derive(Debug, Clone)]
pub struct BinanceFill {
    /// Fill price
    pub price: Dec,
    /// Fill quantity
    pub qty: Dec,
    /// Commission amount
    pub commission: Dec,
    /// Commission asset
    pub commission_asset: String,
}


// =============================================================================
// Requests and responses
// =============================================================================
/// The URL of a request: the base URL and the endpoint, then `?` and the
/// query when there is one.
pub open spec fn spec_request_url(testnet: bool, endpoint: Seq<char>, query: Seq<char>) -> Seq<char> {
    let base = if testnet {
        "https://testnet.binancefuture.com"@
    } else {
        "https://fapi.binance.com"@
    };
    if query.len() == 0 {
        base + endpoint
    } else {
        base + endpoint + "?"@ + query
    }
}

/// The URL of a request (`query` empty: none).
pub fn request_url(testnet: bool, endpoint: &str, query: &str) -> (r: String)
    ensures
        r@ == spec_request_url(testnet, endpoint@, query@),
{
    let mut u = owned(futures_base_url(testnet));
    u.append(endpoint);
    if query.unicode_len() > 0 {
        u.append("?");
        u.append(query);
    }
    u
}

/// The query of a public request: the parameters in their order, joined as
/// `name=value` with `&`.
pub fn public_query(params: &Vec<QueryParam>) -> (r: String)
    ensures
        r@ == query_text(param_views(params@)),
{
    join_params(params)
}

/// What a response gives: its body when the status is a success; otherwise
/// the API error the body holds, if it holds one, else `HTTP {status}:
/// {body}`.
pub fn response_outcome(success: bool, status: &str, body: String, api_error: Option<(i64, String)>) -> (r:
    Result<String, BinanceRestError>)
    ensures
        success ==> r == Ok::<String, BinanceRestError>(body),
        !success ==> (api_error matches Some((code, msg)) ==> r == Err::<String, BinanceRestError>(
            BinanceRestError::ApiError { code, msg },
        )),
        !success && api_error is None ==> (r matches Err(BinanceRestError::RequestFailed(m)) && m@
            == "HTTP "@ + status@ + ": "@ + body@),
{
    if success {
        return Ok(body);
    }
    match api_error {
        Some((code, msg)) => Err(BinanceRestError::ApiError { code, msg }),
        None => {
            let mut m = owned("HTTP ");
            m.append(status);
            m.append(": ");
            m.append(body.as_str());
            Err(BinanceRestError::RequestFailed(m))
        },
    }
}

/// The parameters of a market order: symbol, side (`BUY` for a Long,
/// `SELL` for a Short), type `MARKET`, quantity, response type `RESULT`;
/// then `reduceOnly=true` for an exit and the client order ID when given.
pub open spec fn spec_market_order_params(
    symbol: Seq<char>,
    side: Side,
    quantity: Dec,
    client_order_id: Option<Seq<char>>,
    reduce_only: bool,
) -> Seq<(Seq<char>, Seq<char>)> {
    let base = seq![
        ("symbol"@, symbol),
        ("side"@, if side == Side::Long { "BUY"@ } else { "SELL"@ }),
        ("type"@, "MARKET"@),
        ("quantity"@, crate::decimal::decimal_text(quantity@)),
        ("newOrderRespType"@, "RESULT"@),
    ];
    let with_reduce = if reduce_only {
        base.push(("reduceOnly"@, "true"@))
    } else {
        base
    };
    match client_order_id {
        Some(c) => with_reduce.push(("newClientOrderId"@, c)),
        None => with_reduce,
    }
}

/// The parameters of a market order.
pub fn market_order_params(
    symbol: &str,
    side: Side,
    quantity: Dec,
    client_order_id: Option<&str>,
    reduce_only: bool,
) -> (r: Vec<QueryParam>)
    requires
        quantity.wf(),
    ensures
        param_views(r@) == spec_market_order_params(
            symbol@,
            side,
            quantity,
            match client_order_id {
                Some(c) => Some(c@),
                None => None,
            },
            reduce_only,
        ),
{
    let side_text = match side {
        Side::Long => "BUY",
        Side::Short => "SELL",
    };
    let mut params: Vec<QueryParam> = Vec::new();
    params.push((owned("symbol"), owned(symbol)));
    params.push((owned("side"), owned(side_text)));
    params.push((owned("type"), owned("MARKET")));
    params.push((owned("quantity"), quantity.to_text()));
    params.push((owned("newOrderRespType"), owned("RESULT")));
    if reduce_only {
        params.push((owned("reduceOnly"), owned("true")));
    }
    match client_order_id {
        Some(c) => params.push((owned("newClientOrderId"), owned(c))),
        None => {},
    }
    proof {
        let expected = spec_market_order_params(
            symbol@,
            side,
            quantity,
            match client_order_id {
                Some(c) => Some(c@),
                None => None,
            },
            reduce_only,
        );
        assert(param_views(params@) =~= expected);
    }
    params
}

/// The parameters of a kline request; a limit outside 1..=1000 is refused.
pub fn kline_params(symbol: &str, interval: &str, limit: u16) -> (r: Result<Vec<QueryParam>, BinanceRestError>)
    ensures
        (limit == 0 || limit > 1000) ==> (r matches Err(BinanceRestError::InvalidParameter(m)) && m@
            == "kline limit must be between 1 and 1000, got "@ + decimal_digits(limit as nat)),
        (1 <= limit <= 1000) ==> (r matches Ok(v) && param_views(v@) == seq![
            ("symbol"@, symbol@),
            ("interval"@, interval@),
            ("limit"@, decimal_digits(limit as nat)),
        ]),
{
    if limit == 0 || limit > 1000 {
        let mut m = owned("kline limit must be between 1 and 1000, got ");
        m.append(usize_text(limit as usize).as_str());
        return Err(BinanceRestError::InvalidParameter(m));
    }
    let mut params: Vec<QueryParam> = Vec::new();
    params.push((owned("symbol"), owned(symbol)));
    params.push((owned("interval"), owned(interval)));
    params.push((owned("limit"), usize_text(limit as usize)));
    assert(param_views(params@) =~= seq![
        ("symbol"@, symbol@),
        ("interval"@, interval@),
        ("limit"@, decimal_digits(limit as nat)),
    ]);
    Ok(params)
}

/// The parameters naming an order of a symbol (to cancel it or query it).
pub fn order_params(symbol: &str, order_id: u64) -> (r: Vec<QueryParam>)
    ensures
        param_views(r@) == seq![("symbol"@, symbol@), ("orderId"@, decimal_digits(order_id as nat))],
{
    let mut params: Vec<QueryParam> = Vec::new();
    params.push((owned("symbol"), owned(symbol)));
    params.push((owned("orderId"), u64_text(order_id)));
    assert(param_views(params@) =~= seq![("symbol"@, symbol@), ("orderId"@, decimal_digits(order_id as nat))]);
    params
}

/// The parameters setting a symbol's leverage.
pub fn leverage_params(symbol: &str, leverage: u8) -> (r: Vec<QueryParam>)
    ensures
        param_views(r@) == seq![("symbol"@, symbol@), ("leverage"@, decimal_digits(leverage as nat))],
{
    let mut params: Vec<QueryParam> = Vec::new();
    params.push((owned("symbol"), owned(symbol)));
    params.push((owned("leverage"), usize_text(leverage as usize)));
    assert(param_views(params@) =~= seq![("symbol"@, symbol@), ("leverage"@, decimal_digits(leverage as nat))]);
    params
}

/// Whether a character has the Unicode `White_Space` property, which is
/// what `char::is_whitespace` and `str::trim` test.
pub open spec fn is_white_space(c: char) -> bool {
    let u = c as u32;
    ||| 0x09 <= u <= 0x0D
    ||| u == 0x20
    ||| u == 0x85
    ||| u == 0xA0
    ||| u == 0x1680
    ||| 0x2000 <= u <= 0x200A
    ||| u == 0x2028
    ||| u == 0x2029
    ||| u == 0x202F
    ||| u == 0x205F
    ||| u == 0x3000
}

/// The text without its leading white space.
pub open spec fn trim_start(s: Seq<char>) -> Seq<char>
    decreases s.len(),
{
    if s.len() > 0 && is_white_space(s[0]) {
        trim_start(s.drop_first())
    } else {
        s
    }
}

/// The text without its trailing white space.
pub open spec fn trim_end(s: Seq<char>) -> Seq<char>
    decreases s.len(),
{
    if s.len() > 0 && is_white_space(s.last()) {
        trim_end(s.drop_last())
    } else {
        s
    }
}

/// The text without leading and trailing white space.
pub open spec fn trimmed(s: Seq<char>) -> Seq<char> {
    trim_end(trim_start(s))
}

/// Calls `str::trim`. Claims what its documentation says: the text with
/// leading and trailing `White_Space` characters removed.
#[verifier::external_body]
fn trim_text(s: &str) -> (r: &str)
    ensures
        r@ == trimmed(s@),
{
    s.trim()
}

/// The outcome of a ping: its body, trimmed, must be `{}`.
pub fn ping_outcome(body: &str) -> (r: Result<(), BinanceRestError>)
    ensures
        trimmed(body@) == "{}"@ ==> r is Ok,
        trimmed(body@) != "{}"@ ==> (r matches Err(BinanceRestError::ParseError(m)) && m@
            == "Unexpected ping response: "@ + body@),
{
    proof {
        reveal_strlit("{}");
    }
    if crate::text::str_eq(trim_text(body), "{}") {
        Ok(())
    } else {
        let mut m = owned("Unexpected ping response: ");
        m.append(body);
        Err(BinanceRestError::ParseError(m))
    }
}

/// The price of a ticker response; a price that is not positive is refused.
pub fn price_from_response(price: Dec) -> (r: Result<Price, BinanceRestError>)
    requires
        price.wf(),
    ensures
        price.units() > 0 ==> r == Ok::<Price, BinanceRestError>(Price(price)),
        price.units() <= 0 ==> (r matches Err(BinanceRestError::ParseError(m)) && m@
            == "Invalid price in response: Invalid price: Price must be positive"@),
{
    match Price::new(price) {
        Ok(p) => Ok(p),
        Err(e) => {
            proof {
                reveal_strlit("Invalid price in response: ");
                reveal_strlit("Invalid price: ");
                reveal_strlit("Price must be positive");
                reveal_strlit("Invalid price in response: Invalid price: Price must be positive");
            }
            let t = e.display();
            let mut m = owned("Invalid price in response: ");
            m.append(t.as_str());
            Err(BinanceRestError::ParseError(m))
        },
    }
}

} // verus!
