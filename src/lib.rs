//! Market data core for a trading dashboard.
//!
//! Prices and quantities are fixed-point integers (`types::FIXED_SCALE`
//! hundred-millionths of a unit). The modules hold the value types and their
//! derived figures (`types`, `candle`, `order`, `trade`, `ticker`), the live
//! store with its bounded buffers (`market`, `app_state`), reconnection
//! policies (`reconnect`), the decisions of the feed connection loop and the
//! dispatch of decoded messages (`feed`), and text output for display
//! (`text`, `path`).

pub mod app_state;
pub mod candle;
pub mod feed;
pub mod market;
pub mod order;
mod outside;
pub mod path;
pub mod reconnect;
pub mod text;
pub mod ticker;
pub mod trade;
pub mod types;
pub mod wide;
