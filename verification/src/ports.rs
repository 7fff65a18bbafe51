//! Data exchanged with the exchange and market data adapters: margin
//! settings, order results and price updates. The adapters themselves do I/O
//! and live outside the library.

use vstd::prelude::*;

use crate::decimal::Dec;
use crate::ids::Timestamp;
use crate::value_objects::{Price, Quantity, Symbol};

verus! {

/// Margin account settings for a symbol.
#[derive(Debug, PartialEq, Eq)]
pub struct MarginSettings {
    /// Isolated (not cross) margin
    pub is_isolated: bool,
    /// Current leverage multiplier
    pub leverage: u8,
    /// Symbol this applies to
    pub symbol: String,
}

impl Clone for MarginSettings {
    fn clone(&self) -> (r: MarginSettings)
        ensures
            r == *self,
    {
        MarginSettings { is_isolated: self.is_isolated, leverage: self.leverage, symbol: self.symbol.clone() }
    }
}

/// Result of a successful order execution.
#[derive(Debug)]
pub struct OrderResult {
    /// Exchange-assigned order ID
    pub exchange_order_id: String,
    /// Client-provided order ID (for idempotency)
    pub client_order_id: String,
    /// Actual fill price
    pub fill_price: Price,
    /// Actual filled quantity
    pub filled_quantity: Quantity,
    /// Trading fee paid
    pub fee: Dec,
    /// Fee asset (e.g. USDT, BNB)
    pub fee_asset: String,
    /// When the order was filled
    pub filled_at: Timestamp,
}

impl Clone for OrderResult {
    fn clone(&self) -> (r: OrderResult)
        ensures
            r == *self,
    {
        OrderResult {
            exchange_order_id: self.exchange_order_id.clone(),
            client_order_id: self.client_order_id.clone(),
            fill_price: self.fill_price,
            filled_quantity: self.filled_quantity,
            fee: self.fee,
            fee_asset: self.fee_asset.clone(),
            filled_at: self.filled_at,
        }
    }
}

/// Price update from the market data feed.
#[derive(Debug, Clone)]
pub struct PriceUpdate {
    /// Trading pair
    pub symbol: Symbol,
    /// Current price
    pub price: Price,
    /// Update timestamp
    pub timestamp: Timestamp,
}

} // verus!
