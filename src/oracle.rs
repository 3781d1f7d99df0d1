//! The price-oracle aggregator: submissions, quorum, aggregation, candles, provider
//! reputation and alerts, driven by operations and cross-chain messages.
pub mod aggregation;
pub mod alerts;
pub mod candles;
pub mod dispatch;
pub mod handlers;
pub mod queries;
pub mod reputation;
pub mod state;
pub mod types;
