//! What the Binance WebSocket client computes: the stream URLs it connects
//! to, the messages the streams carry, and what a stream does with each
//! frame and when it pings. Connecting, sending and receiving happen outside
//! the library.

use vstd::prelude::*;

use crate::text::owned;

verus! {

/// WebSocket base URL (production).
pub const BINANCE_WS_URL: &'static str = "wss://stream.binance.com:9443";

/// WebSocket base URL (testnet).
pub const BINANCE_WS_TESTNET_URL: &'static str = "wss://testnet.binance.vision";

/// Errors of the WebSocket client.
#[derive(Debug, Clone, PartialEq)]
pub enum BinanceWsError {
    /// Connection failed
    ConnectionFailed(String),
    /// Send failed
    SendFailed(String),
    /// Receive failed
    ReceiveFailed(String),
    /// Failed to parse a message
    ParseError(String),
    /// Connection closed
    ConnectionClosed,
    /// Invalid symbol
    InvalidSymbol(String),
}

impl BinanceWsError {
    /// The error message.
    pub fn display(&self) -> (r: String)
        ensures
            r@ == match self {
                BinanceWsError::ConnectionFailed(m) => "WebSocket connection failed: "@ + m@,
                BinanceWsError::SendFailed(m) => "WebSocket send failed: "@ + m@,
                BinanceWsError::ReceiveFailed(m) => "WebSocket receive failed: "@ + m@,
                BinanceWsError::ParseError(m) => "Failed to parse message: "@ + m@,
                BinanceWsError::ConnectionClosed => "Connection closed"@,
                BinanceWsError::InvalidSymbol(m) => "Invalid symbol: "@ + m@,
            },
    {
        let (prefix, m) = match self {
            BinanceWsError::ConnectionFailed(m) => ("WebSocket connection failed: ", m.as_str()),
            BinanceWsError::SendFailed(m) => ("WebSocket send failed: ", m.as_str()),
            BinanceWsError::ReceiveFailed(m) => ("WebSocket receive failed: ", m.as_str()),
            BinanceWsError::ParseError(m) => ("Failed to parse message: ", m.as_str()),
            BinanceWsError::ConnectionClosed => ("Connection closed", ""),
            BinanceWsError::InvalidSymbol(m) => ("Invalid symbol: ", m.as_str()),
        };
        proof {
            reveal_strlit("");
        }
        crate::text::join2(prefix, m)
    }
}

/// What `str::to_lowercase` gives.
pub uninterp spec fn lowercase_of(s: Seq<char>) -> Seq<char>;

/// The ASCII lowercase of a character: `A`-`Z` become `a`-`z`.
pub open spec fn ascii_lower(c: char) -> char {
    if 'A' <= c <= 'Z' {
        ((c as u32) + 32) as char
    } else {
        c
    }
}

/// The lowercase of a text: the ASCII mapping on an ASCII text, else what
/// `str::to_lowercase` gives.
pub open spec fn lowered(s: Seq<char>) -> Seq<char> {
    if forall|i: int| 0 <= i < s.len() ==> (s[i] as u32) < 128 {
        s.map_values(|c: char| ascii_lower(c))
    } else {
        lowercase_of(s)
    }
}

/// Calls `str::to_lowercase`. Claims the text is named by `lowercase_of`
/// (Unicode lowercase mapping, a function of the text alone), and that on an
/// ASCII text the mapping is the ASCII one, character by character.
#[verifier::external_body]
fn to_lowercase(s: &str) -> (r: String)
    ensures
        r@ == lowercase_of(s@),
        r@ == lowered(s@),
{
    s.to_lowercase()
}

/// Type of a WebSocket stream.
#[derive(Debug, Clone, Copy, PartialEq, Eq, Structural)]
pub enum StreamType {
    /// 24h ticker
    Ticker,
    /// Aggregated trades
    AggTrade,
    /// User data
    UserData,
    /// Candlesticks
    Kline,
}

/// The WebSocket client: where it connects.
#[derive(Debug)]
pub struct BinanceWebSocketClient {
    base_url: String,
    testnet: bool,
}

impl BinanceWebSocketClient {
    /// The base URL.
    pub closed spec fn spec_base_url(&self) -> Seq<char> {
        self.base_url@
    }

    /// Whether it connects to the testnet.
    pub closed spec fn spec_testnet(&self) -> bool {
        self.testnet
    }

    /// A client for production or the testnet.
    pub fn new(testnet: bool) -> (r: BinanceWebSocketClient)
        ensures
            r.spec_testnet() == testnet,
            r.spec_base_url() == (if testnet {
                "wss://testnet.binance.vision"@
            } else {
                "wss://stream.binance.com:9443"@
            }),
    {
        let base_url = if testnet {
            owned(BINANCE_WS_TESTNET_URL)
        } else {
            owned(BINANCE_WS_URL)
        };
        BinanceWebSocketClient { base_url, testnet }
    }

    /// The base URL.
    pub fn base_url(&self) -> (r: &str)
        ensures
            r@ == self.spec_base_url(),
    {
        self.base_url.as_str()
    }

    /// Whether it connects to the testnet.
    pub fn is_testnet(&self) -> (r: bool)
        ensures
            r == self.spec_testnet(),
    {
        self.testnet
    }

    /// `{base}/ws/{symbol lowercase}@ticker`.
    pub fn ticker_url(&self, symbol: &str) -> (r: String)
        ensures
            r@ == self.spec_base_url() + "/ws/"@ + lowered(symbol@) + "@ticker"@,
    {
        let mut u = self.base_url.clone();
        u.append("/ws/");
        u.append(to_lowercase(symbol).as_str());
        u.append("@ticker");
        u
    }

    /// `{base}/ws/{symbol lowercase}@aggTrade`.
    pub fn agg_trade_url(&self, symbol: &str) -> (r: String)
        ensures
            r@ == self.spec_base_url() + "/ws/"@ + lowered(symbol@) + "@aggTrade"@,
    {
        let mut u = self.base_url.clone();
        u.append("/ws/");
        u.append(to_lowercase(symbol).as_str());
        u.append("@aggTrade");
        u
    }

    /// `{base}/ws/{listen key}`.
    pub fn user_data_url(&self, listen_key: &str) -> (r: String)
        ensures
            r@ == self.spec_base_url() + "/ws/"@ + listen_key@,
    {
        let mut u = self.base_url.clone();
        u.append("/ws/");
        u.append(listen_key);
        u
    }

    /// `{base}/ws/{symbol lowercase}@kline_{interval}`.
    pub fn kline_url(&self, symbol: &str, interval: &str) -> (r: String)
        ensures
            r@ == self.spec_base_url() + "/ws/"@ + lowered(symbol@) + "@kline_"@ + interval@,
    {
        let mut u = self.base_url.clone();
        u.append("/ws/");
        u.append(to_lowercase(symbol).as_str());
        u.append("@kline_");
        u.append(interval);
        u
    }
}

/// A message from a Binance stream.
#[derive(Debug, Clone)]
pub enum WsMessage {
    /// 24h ticker update
    Ticker(TickerEvent),
    /// Aggregated trade
    AggTrade(AggTradeEvent),
    /// Candlestick
    Kline(KlineEvent),
    /// Execution report (order update)
    ExecutionReport(ExecutionReportEvent),
    /// Account position update
    AccountPosition(AccountPositionEvent),
    /// Balance update
    BalanceUpdate(BalanceUpdateEvent),
}

/// 24h ticker event.
#[derive(Debug, Clone)]
pub struct TickerEvent {
    /// Event time
    pub event_time: u64,
    /// Symbol
    pub symbol: String,
    /// Price change
    pub price_change: String,
    /// Price change percent
    pub price_change_percent: String,
    /// Last price
    pub close_price: String,
    /// Last quantity
    pub close_qty: String,
    /// Open price
    pub open_price: String,
    /// High price
    pub high_price: String,
    /// Low price
    pub low_price: String,
    /// Total traded volume
    pub volume: String,
    /// Total traded quote volume
    pub quote_volume: String,
}

/// Aggregated trade event.
#[derive(Debug, Clone)]
pub struct AggTradeEvent {
    /// Event time
    pub event_time: u64,
    /// Symbol
    pub symbol: String,
    /// Aggregated trade ID
    pub agg_trade_id: u64,
    /// Price
    pub price: String,
    /// Quantity
    pub quantity: String,
    /// First trade ID
    pub first_trade_id: u64,
    /// Last trade ID
    pub last_trade_id: u64,
    /// Trade time
    pub trade_time: u64,
    /// Whether the buyer is the maker
    pub is_buyer_maker: bool,
}

/// Kline event.
#[derive(Debug, Clone)]
pub struct KlineEvent {
    /// Event time
    pub event_time: u64,
    /// Symbol
    pub symbol: String,
    /// Kline data
    pub kline: KlineData,
}

/// Kline data.
#[derive(Debug, Clone)]
pub struct KlineData {
    /// Start time
    pub start_time: u64,
    /// Close time
    pub close_time: u64,
    /// Symbol
    pub symbol: String,
    /// Interval
    pub interval: String,
    /// Open price
    pub open: String,
    /// Close price
    pub close: String,
    /// High price
    pub high: String,
    /// Low price
    pub low: String,
    /// Volume
    pub volume: String,
    /// Whether the kline is closed
    pub is_closed: bool,
}

/// Execution report event (order update).
#[derive(Debug, Clone)]
pub struct ExecutionReportEvent {
    /// Event time
    pub event_time: u64,
    /// Symbol
    pub symbol: String,
    /// Client order ID
    pub client_order_id: String,
    /// Side
    pub side: String,
    /// Order type
    pub order_type: String,
    /// Time in force
    pub time_in_force: String,
    /// Order quantity
    pub quantity: String,
    /// Order price
    pub price: String,
    /// Order status
    pub order_status: String,
    /// Order ID
    pub order_id: u64,
    /// Last executed quantity
    pub last_executed_qty: String,
    /// Cumulative filled quantity
    pub cumulative_filled_qty: String,
    /// Last executed price
    pub last_executed_price: String,
    /// Transaction time
    pub transaction_time: u64,
}

/// Account position event.
#[derive(Debug, Clone)]
pub struct AccountPositionEvent {
    /// Event time
    pub event_time: u64,
    /// Last update time
    pub last_update_time: u64,
    /// Balances
    pub balances: Vec<BalanceData>,
}

/// Balance of an asset.
#[derive(Debug, Clone)]
pub struct BalanceData {
    /// Asset
    pub asset: String,
    /// Free amount
    pub free: String,
    /// Locked amount
    pub locked: String,
}

/// Balance update event.
#[derive(Debug, Clone)]
pub struct BalanceUpdateEvent {
    /// Event time
    pub event_time: u64,
    /// Asset
    pub asset: String,
    /// Balance delta
    pub balance_delta: String,
    /// Clear time
    pub clear_time: u64,
}


// =============================================================================
// Receiving
// =============================================================================
/// Keep-alive interval: a ping is sent when the last one is older (180 s).
pub const PING_INTERVAL_NANOS: u128 = 180_000_000_000;

/// What the stream does before it waits for the next frame.
#[derive(Debug, Clone, Copy, PartialEq, Eq, Structural)]
pub enum KeepAlive {
    /// No ping was sent yet: start the timer now
    StartTimer,
    /// The last ping is too old: send one (a failure ends the receive)
    SendPing,
    /// Nothing to do
    Wait,
}

/// The keep-alive step, from the time since the last ping (none yet: `None`).
pub fn keepalive_step(since_last_ping_nanos: Option<u128>) -> (r: KeepAlive)
    ensures
        r == match since_last_ping_nanos {
            None => KeepAlive::StartTimer,
            Some(t) => if t > PING_INTERVAL_NANOS {
                KeepAlive::SendPing
            } else {
                KeepAlive::Wait
            },
        },
{
    match since_last_ping_nanos {
        None => KeepAlive::StartTimer,
        Some(t) => if t > PING_INTERVAL_NANOS {
            KeepAlive::SendPing
        } else {
            KeepAlive::Wait
        },
    }
}

/// A frame received from the socket (its payload is kept outside).
#[derive(Debug, Clone, PartialEq)]
pub enum WsFrame {
    /// A text frame
    Text,
    /// A ping from the server
    Ping,
    /// A pong from the server
    Pong,
    /// The server closed the connection
    Close,
    /// A binary or raw frame
    Other,
    /// Receiving failed, with the error's text
    Failed(String),
    /// The stream ended
    Ended,
}

/// What to do with a received frame.
#[derive(Debug, Clone, PartialEq)]
pub enum FrameAction {
    /// Parse the text as a message and hand it out
    Parse,
    /// Answer with a pong, then receive the next frame
    ReplyPong,
    /// Receive the next frame
    Skip,
    /// The stream is over: hand out nothing
    Finish,
    /// Hand out this error
    Fail(BinanceWsError),
}

/// What to do with a received frame: text is parsed, a ping is answered,
/// pongs and binary frames are skipped, a close or the end finishes the
/// stream, and a receive error is handed out.
pub fn frame_action(frame: WsFrame) -> (r: FrameAction)
    ensures
        r == match frame {
            WsFrame::Text => FrameAction::Parse,
            WsFrame::Ping => FrameAction::ReplyPong,
            WsFrame::Pong => FrameAction::Skip,
            WsFrame::Other => FrameAction::Skip,
            WsFrame::Close => FrameAction::Finish,
            WsFrame::Ended => FrameAction::Finish,
            WsFrame::Failed(e) => FrameAction::Fail(BinanceWsError::ReceiveFailed(e)),
        },
{
    match frame {
        WsFrame::Text => FrameAction::Parse,
        WsFrame::Ping => FrameAction::ReplyPong,
        WsFrame::Pong => FrameAction::Skip,
        WsFrame::Other => FrameAction::Skip,
        WsFrame::Close => FrameAction::Finish,
        WsFrame::Ended => FrameAction::Finish,
        WsFrame::Failed(e) => FrameAction::Fail(BinanceWsError::ReceiveFailed(e)),
    }
}

} // verus!
