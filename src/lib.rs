//! A decentralised price-oracle aggregator. Providers submit prices for tokens; once a
//! token's batch reaches quorum it is combined into one canonical price (mean, with the
//! median beside it), which feeds per-interval candle series and user alerts. Provider
//! reliability is tracked with exponential moving averages.
//!
//! Prices, thresholds and candle values are fixed-point integers with six decimals
//! (`oracle::types::PRICE_SCALE`); ratios such as accuracy and uptime are parts per million
//! (`oracle::types::UNIT_RATIO`). Each step of a chain's state is a function from state and
//! request to new state and a list of effects for the host runtime to carry out.
//!
//! Besides the aggregator: subscription plans with usage metering, a registry of token and
//! source metadata, and a plain last-price register.
pub mod metadata;
pub mod oracle;
pub mod price_book;
pub mod store;
pub mod subscription;
