use vstd::prelude::*;

verus! {

/// Number of price units in one whole unit of the quote currency: prices, thresholds and
/// candle values are fixed-point numbers with six decimals.
pub const PRICE_SCALE: u64 = 1_000_000;

/// A ratio of one (100%) in parts per million: accuracy, uptime and variance use this scale.
pub const UNIT_RATIO: u64 = 1_000_000;

/// Name of the event stream that price updates, registrations and alerts go to.
pub const ORACLE_STREAM_NAME: &'static str = "oracle_price_feed";

/// Identifier of a chain: the 256-bit hash that names it, as four words.
#[derive(Clone, Copy, Debug, PartialEq, Eq, Structural)]
pub struct ChainId(pub u64, pub u64, pub u64, pub u64);

/// Marker naming the interface of the oracle application.
pub struct OracleAbi;

/// One provider's price for a token, waiting in the token's batch.
#[derive(Debug)]
pub struct Submission {
    pub source: String,
    pub price: u64,
    pub timestamp: u64,
}

impl Clone for Submission {
    fn clone(&self) -> (r: Self)
        ensures
            r == *self,
    {
        Submission { source: self.source.clone(), price: self.price, timestamp: self.timestamp }
    }
}

/// The canonical price record of a token.
#[derive(Debug)]
pub struct PriceData {
    pub token: String,
    pub price: u64,
    pub timestamp: u64,
    pub source: String,
    pub network: String,
    pub median: u64,
    pub twap: u64,
    pub vwap: u64,
}

impl Clone for PriceData {
    fn clone(&self) -> (r: Self)
        ensures
            r == *self,
    {
        PriceData {
            token: self.token.clone(),
            price: self.price,
            timestamp: self.timestamp,
            source: self.source.clone(),
            network: self.network.clone(),
            median: self.median,
            twap: self.twap,
            vwap: self.vwap,
        }
    }
}

/// One provider's contribution to an aggregated price.
#[derive(Debug)]
pub struct OracleInput {
    pub source: String,
    pub price: u64,
    pub latency: u64,
    pub timestamp: u64,
}

impl Clone for OracleInput {
    fn clone(&self) -> (r: Self)
        ensures
            r == *self,
    {
        OracleInput {
            source: self.source.clone(),
            price: self.price,
            latency: self.latency,
            timestamp: self.timestamp,
        }
    }
}

/// An open-high-low-close sample with its volume.
#[derive(Clone, Copy, Debug, PartialEq, Eq, Structural)]
pub struct Candle {
    pub open: u64,
    pub high: u64,
    pub low: u64,
    pub close: u64,
    pub volume: u64,
    pub timestamp: u64,
}

#[derive(Clone, Copy, Debug, PartialEq, Eq, Hash, Structural)]
pub enum CandleInterval {
    OneSecond,
    OneMinute,
    OneHour,
    TwentyFourHour,
}

#[derive(Clone, Copy, Debug, PartialEq, Eq, Structural)]
pub enum ThresholdType {
    Above,
    Below,
}

/// A user's rule: notify when the token's price crosses the threshold.
#[derive(Debug)]
pub struct AlertConfig {
    pub id: String,
    pub token: String,
    pub threshold_type: ThresholdType,
    pub threshold_value: u64,
    pub active: bool,
    pub created_at: u64,
}

impl Clone for AlertConfig {
    fn clone(&self) -> (r: Self)
        ensures
            r == *self,
    {
        AlertConfig {
            id: self.id.clone(),
            token: self.token.clone(),
            threshold_type: self.threshold_type,
            threshold_value: self.threshold_value,
            active: self.active,
            created_at: self.created_at,
        }
    }
}

/// Reliability record of a provider. `accuracy`, `uptime` and `variance` are ratios in parts
/// per million; `variance` is kept in the record but not computed and stays as created.
#[derive(Debug)]
pub struct OracleReputation {
    pub source: String,
    pub accuracy: u64,
    pub latency_average: u64,
    pub uptime: u64,
    pub variance: u64,
    pub total_updates: u64,
    pub last_update: u64,
}

impl Clone for OracleReputation {
    fn clone(&self) -> (r: Self)
        ensures
            r == *self,
    {
        OracleReputation {
            source: self.source.clone(),
            accuracy: self.accuracy,
            latency_average: self.latency_average,
            uptime: self.uptime,
            variance: self.variance,
            total_updates: self.total_updates,
            last_update: self.last_update,
        }
    }
}

/// Network-wide figures over all provider records; `network_uptime` in parts per million.
#[derive(Clone, Copy, Debug, PartialEq, Eq, Structural)]
pub struct AggregatedStats {
    pub total_queries: u64,
    pub avg_latency: u64,
    pub active_oracles: u64,
    pub network_uptime: u64,
}

/// Chains with a fixed role: the registrar that may register providers, and the aggregator
/// that aggregation requests go to.
#[derive(Clone, Copy, Debug, PartialEq, Eq, Structural)]
pub struct OracleParameters {
    pub master_chain: ChainId,
    pub aggregator_chain: ChainId,
}

/// Requests made of the aggregator by its own chain's users.
#[derive(Debug)]
pub enum Operation {
    /// Submit a provider's price.
    SubmitPrice { token: String, price: u64, source: String, timestamp: u64 },
    /// Subscribe to the price feed of a chain.
    SubscribeTo { chain_id: ChainId },
    /// Unsubscribe from the price feed of a chain.
    UnsubscribeFrom { chain_id: ChainId },
    /// Register a provider.
    RegisterProvider { provider_chain: ChainId, source_name: String },
    /// Store an already bucketed candle.
    UpdateCandle { token: String, interval: CandleInterval, candle: Candle },
    /// Create or replace an alert rule.
    SetAlert { user_id: String, alert: AlertConfig },
    /// Remove an alert rule.
    RemoveAlert { user_id: String, alert_id: String },
    /// Ask the aggregator for a fresh aggregated price.
    RequestAggregation { token: String },
}

/// Messages between chains.
#[derive(Debug)]
pub enum OracleMessage {
    /// A provider submits a price to the aggregator.
    SubmitPrice { token: String, price: u64, source: String, timestamp: u64 },
    /// A request for fresh quotes.
    RequestPrice { token: String, requester: ChainId },
    /// A finished aggregation, sent back to the requester.
    AggregationResult {
        token: String,
        aggregated_price: u64,
        median: u64,
        twap: u64,
        vwap: u64,
        oracle_inputs: Vec<OracleInput>,
        timestamp: u64,
    },
    /// Registration of a provider chain by the registrar.
    RegisterProvider { provider_chain: ChainId, source_name: String },
}

/// Events broadcast on the oracle stream.
#[derive(Debug)]
pub enum OracleEvent {
    PriceUpdate {
        token: String,
        price: u64,
        aggregated_price: u64,
        median: u64,
        twap: u64,
        vwap: u64,
        oracle_breakdown: Vec<OracleInput>,
        timestamp: u64,
    },
    ProviderRegistered { source: String, chain_id: ChainId },
    AlertTriggered { user_id: String, alert_id: String, token: String, price: u64 },
}

/// What the host runtime is asked to do after a step of the oracle.
#[derive(Debug)]
pub enum OracleEffect {
    /// Publish an event on the oracle stream.
    Emit(OracleEvent),
    /// Send an authenticated message to a chain.
    Send { destination: ChainId, message: OracleMessage },
    /// Subscribe to the oracle stream of a chain.
    Subscribe(ChainId),
    /// Unsubscribe from the oracle stream of a chain.
    Unsubscribe(ChainId),
}

/// Why a step of the oracle was refused.
#[derive(Clone, Copy, Debug, PartialEq, Eq, Structural)]
pub enum OracleError {
    /// A provider registration came from a chain other than the registrar.
    UnauthorizedRegistration,
}

} // verus!
