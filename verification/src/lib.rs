//! Execution and risk engine for leveraged markets: value objects, position
//! lifecycle, trailing stops, position sizing and pre-trade risk checks,
//! entry signal strategies and chart-derived stops, the intent journal and
//! the executor's decisions, the event log's query and sequencing rules, the
//! request and response logic of the Binance clients, and the decisions of
//! startup recovery and reconciliation.

pub mod decimal;
pub mod ids;
pub mod text;
pub mod value_objects;
pub mod trailing;
pub mod trailing_stop;
pub mod entities;
pub mod policy;
pub mod events;
pub mod engine;
pub mod risk;
pub mod market_data;
pub mod technical_stop_analyzer;
pub mod context;
pub mod credentials;
pub mod signal_strategy;
pub mod detected_position;
pub mod ports;
pub mod intent;
pub mod idempotency;
pub mod binance_rest;
pub mod binance_ws;
pub mod recovery;
pub mod eventlog;
pub mod executor;
pub mod reconciliation;
