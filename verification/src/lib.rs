//! Double top pattern detection for streaming price candles.
//!
//! The crate detects a "double top" reversal pattern in a stream of price
//! candles, one detector per instrument: a volatility-scaled swing detector
//! feeds a multi-state pattern state machine, and a monitoring core feeds
//! candles in, keeps per-instrument state independent and derives one
//! aggregated status snapshot per cycle. Prices are fixed-point integers in
//! hundredths; percentage thresholds are basis points, so every comparison
//! is exact integer arithmetic.

pub mod candle;
pub mod chart;
pub mod config;
pub mod double_top;
pub mod errors;
pub mod indicators;
pub mod monitor;
pub mod status;
pub mod text;
