use vstd::prelude::*;

use crate::oracle::aggregation::{aggregate, aggregate_spec, input_of, oracle_inputs};
use crate::oracle::alerts::{evaluate_alerts, fired_alerts, pairs_view};
use crate::oracle::candles::{append_capped, capped_push};
use crate::oracle::reputation::sat_inc;
use crate::oracle::types::{
    AlertConfig, Candle, CandleInterval, ChainId, OracleEffect, OracleEvent, OracleInput,
    OracleParameters,
    OracleReputation, PriceData, Submission,
};
use crate::store::KeyedStore;

verus! {

/// Most submissions needed before a batch is aggregated.
pub const MAX_QUORUM: u64 = 3;

/// Submissions needed for aggregation with `providers` registered providers.
pub open spec fn quorum(providers: nat) -> nat {
    if providers < MAX_QUORUM {
        providers
    } else {
        MAX_QUORUM as nat
    }
}

/// Whether a batch of `count` submissions is ready: never when empty.
pub open spec fn quorum_reached(count: nat, providers: nat) -> bool {
    count > 0 && count >= quorum(providers)
}

/// The candle that an aggregated price contributes to every interval.
pub open spec fn flat_candle(price: u64, now: u64) -> Candle {
    Candle { open: price, high: price, low: price, close: price, volume: 0, timestamp: now }
}

/// The values bound to `token` in a store of sequences, or none.
pub open spec fn seq_at<T>(store: KeyedStore<Vec<T>>, token: Seq<char>) -> Seq<T> {
    match store.spec_get(token) {
        Some(v) => v@,
        None => Seq::empty(),
    }
}

/// `b` is `a` with `x` appended to the sequence of `token`; other keys unchanged.
pub open spec fn pushed_at<T>(a: KeyedStore<Vec<T>>, b: KeyedStore<Vec<T>>, token: Seq<char>, x: T) -> bool {
    &&& b.spec_get(token) is Some
    &&& seq_at(b, token) == seq_at(a, token).push(x)
    &&& forall|q: Seq<char>| q != token ==> #[trigger] b.spec_get(q) == a.spec_get(q)
}

/// `b` is `a` with candle `c` appended to the series of `token`; other keys unchanged.
pub open spec fn candle_appended(
    a: KeyedStore<Vec<Candle>>,
    b: KeyedStore<Vec<Candle>>,
    token: Seq<char>,
    c: Candle,
) -> bool {
    &&& b.spec_get(token) is Some
    &&& seq_at(b, token) == capped_push(seq_at(a, token), c)
    &&& forall|q: Seq<char>| q != token ==> #[trigger] b.spec_get(q) == a.spec_get(q)
}

/// `b` is `a` with `token` bound to `v`; other keys unchanged.
pub open spec fn bound_at<V>(a: KeyedStore<V>, b: KeyedStore<V>, token: Seq<char>, v: V) -> bool {
    &&& b.spec_get(token) == Some(v)
    &&& forall|q: Seq<char>| q != token ==> #[trigger] b.spec_get(q) == a.spec_get(q)
}

/// `e` publishes the price record `p`, with `breakdown` as its inputs.
pub open spec fn price_update_matches(e: OracleEffect, p: PriceData, breakdown: Seq<OracleInput>) -> bool {
    match e {
        OracleEffect::Emit(
            OracleEvent::PriceUpdate {
                token,
                price,
                aggregated_price,
                median,
                twap,
                vwap,
                oracle_breakdown,
                timestamp,
            },
        ) => {
            &&& token@ == p.token@
            &&& price == p.price
            &&& aggregated_price == p.price
            &&& median == p.median
            &&& twap == p.twap
            &&& vwap == p.vwap
            &&& oracle_breakdown@ == breakdown
            &&& timestamp == p.timestamp
        },
        _ => false,
    }
}

/// `e` announces that the rule `f.1` of user `f.0` fired at `price`.
pub open spec fn alert_effect_matches(e: OracleEffect, f: (Seq<char>, AlertConfig), price: u64) -> bool {
    match e {
        OracleEffect::Emit(OracleEvent::AlertTriggered { user_id, alert_id, token, price: p }) => {
            &&& user_id@ == f.0
            &&& alert_id@ == f.1.id@
            &&& token@ == f.1.token@
            &&& p == price
        },
        _ => false,
    }
}

/// `es` holds one `AlertTriggered` event for each fired rule, in order.
pub open spec fn alert_effects(
    es: Seq<OracleEffect>,
    fired: Seq<(Seq<char>, AlertConfig)>,
    price: u64,
) -> bool {
    &&& es.len() == fired.len()
    &&& forall|i: int| 0 <= i < es.len() ==> alert_effect_matches(#[trigger] es[i], fired[i], price)
}

/// The state of an oracle chain: canonical prices, batches waiting for quorum, registered
/// providers, candle series per interval, alert rules per user and provider reputations.
pub struct OracleState {
    pub params: OracleParameters,
    /// The chain this state belongs to.
    pub chain_id: ChainId,
    /// Latest aggregated price per token.
    pub prices: KeyedStore<PriceData>,
    /// Every price recorded per token, oldest first.
    pub price_history: KeyedStore<Vec<PriceData>>,
    pub latest_price: Option<PriceData>,
    /// Submissions per token not yet aggregated.
    pub pending_prices: KeyedStore<Vec<Submission>>,
    /// Registered providers: source name to chain.
    pub providers: KeyedStore<ChainId>,
    pub candles_1s: KeyedStore<Vec<Candle>>,
    pub candles_1m: KeyedStore<Vec<Candle>>,
    pub candles_1h: KeyedStore<Vec<Candle>>,
    pub candles_24h: KeyedStore<Vec<Candle>>,
    /// Alert rules per user.
    pub alerts: KeyedStore<Vec<AlertConfig>>,
    /// Reputation per provider.
    pub oracle_stats: KeyedStore<OracleReputation>,
    pub total_queries: u64,
    pub active_subscriptions: u64,
}

impl OracleState {
    /// The candle store of an interval.
    pub open spec fn series(&self, interval: CandleInterval) -> KeyedStore<Vec<Candle>> {
        match interval {
            CandleInterval::OneSecond => self.candles_1s,
            CandleInterval::OneMinute => self.candles_1m,
            CandleInterval::OneHour => self.candles_1h,
            CandleInterval::TwentyFourHour => self.candles_24h,
        }
    }

    /// The batch of `token` waiting for quorum.
    pub open spec fn pending_of(&self, token: Seq<char>) -> Seq<Submission> {
        seq_at(self.pending_prices, token)
    }

    /// Same parameters, providers, alert rules and subscription count.
    pub open spec fn same_config(&self, o: &OracleState) -> bool {
        &&& self.params == o.params
        &&& self.chain_id == o.chain_id
        &&& self.providers == o.providers
        &&& self.alerts == o.alerts
        &&& self.active_subscriptions == o.active_subscriptions
    }

    /// Same prices, history and candles.
    pub open spec fn same_outputs(&self, o: &OracleState) -> bool {
        &&& self.prices == o.prices
        &&& self.price_history == o.price_history
        &&& self.latest_price == o.latest_price
        &&& self.candles_1s == o.candles_1s
        &&& self.candles_1m == o.candles_1m
        &&& self.candles_1h == o.candles_1h
        &&& self.candles_24h == o.candles_24h
        &&& self.total_queries == o.total_queries
    }

    /// `p` was recorded as the price of its token: stored, made the latest, and appended to
    /// the token's history.
    pub open spec fn price_recorded(&self, o: &OracleState, p: PriceData) -> bool {
        &&& bound_at(self.prices, o.prices, p.token@, p)
        &&& o.latest_price == Some(p)
        &&& pushed_at(self.price_history, o.price_history, p.token@, p)
    }

    /// `o` is `self` after the aggregation of `batch` for `token` at time `now` with the
    /// resulting `effects`; the token's batch is left empty.
    pub open spec fn published(
        &self,
        token: Seq<char>,
        batch: Seq<Submission>,
        now: u64,
        o: &OracleState,
        effects: Seq<OracleEffect>,
    ) -> bool {
        let p = o.prices.spec_get(token)->Some_0;
        &&& o.prices.spec_get(token) is Some
        &&& aggregate_spec(token, batch, now, p)
        &&& self.price_recorded(o, p)
        &&& candle_appended(self.candles_1s, o.candles_1s, token, flat_candle(p.price, now))
        &&& candle_appended(self.candles_1m, o.candles_1m, token, flat_candle(p.price, now))
        &&& candle_appended(self.candles_1h, o.candles_1h, token, flat_candle(p.price, now))
        &&& candle_appended(self.candles_24h, o.candles_24h, token, flat_candle(p.price, now))
        &&& o.total_queries == sat_inc(self.total_queries)
        &&& o.pending_prices.spec_get(token) is Some
        &&& o.pending_of(token).len() == 0
        &&& forall|q: Seq<char>| q != token ==> #[trigger] o.pending_prices.spec_get(q) == self.pending_prices.spec_get(q)
        &&& effects.len() >= 1
        &&& price_update_matches(effects[0], p, batch.map_values(|s: Submission| input_of(s)))
        &&& alert_effects(
            effects.drop_first(),
            fired_alerts(self.alerts.pairs(), token, p.price),
            p.price,
        )
    }

    pub fn new(params: OracleParameters, chain_id: ChainId) -> (r: Self)
        ensures
            r.params == params,
            r.chain_id == chain_id,
            r.prices.pairs().len() == 0,
            r.price_history.pairs().len() == 0,
            r.latest_price is None,
            r.pending_prices.pairs().len() == 0,
            r.providers.pairs().len() == 0,
            r.candles_1s.pairs().len() == 0,
            r.candles_1m.pairs().len() == 0,
            r.candles_1h.pairs().len() == 0,
            r.candles_24h.pairs().len() == 0,
            r.alerts.pairs().len() == 0,
            r.oracle_stats.pairs().len() == 0,
            r.total_queries == 0,
            r.active_subscriptions == 0,
    {
        OracleState {
            params,
            chain_id,
            prices: KeyedStore::new(),
            price_history: KeyedStore::new(),
            latest_price: None,
            pending_prices: KeyedStore::new(),
            providers: KeyedStore::new(),
            candles_1s: KeyedStore::new(),
            candles_1m: KeyedStore::new(),
            candles_1h: KeyedStore::new(),
            candles_24h: KeyedStore::new(),
            alerts: KeyedStore::new(),
            oracle_stats: KeyedStore::new(),
            total_queries: 0,
            active_subscriptions: 0,
        }
    }

    /// Stores `p` as the price of its token and as the latest price, and appends it to the
    /// token's history.
    pub fn record_price(&mut self, p: PriceData)
        ensures
            old(self).price_recorded(final(self), p),
            final(self).same_config(old(self)),
            final(self).pending_prices == old(self).pending_prices,
            final(self).oracle_stats == old(self).oracle_stats,
            final(self).candles_1s == old(self).candles_1s,
            final(self).candles_1m == old(self).candles_1m,
            final(self).candles_1h == old(self).candles_1h,
            final(self).candles_24h == old(self).candles_24h,
            final(self).total_queries == old(self).total_queries,
    {
        let mut history = match self.price_history.get(&p.token) {
            Some(h) => h.clone(),
            None => Vec::new(),
        };
        history.push(p.clone());
        self.price_history.insert(p.token.clone(), history);
        self.prices.insert(p.token.clone(), p.clone());
        self.latest_price = Some(p);
    }

    /// One `AlertTriggered` effect for each rule that fires for a new price of `token`.
    pub fn check_alerts(&self, token: &String, price: u64) -> (r: Vec<OracleEffect>)
        ensures
            alert_effects(r@, fired_alerts(self.alerts.pairs(), token@, price), price),
    {
        let fired = evaluate_alerts(&self.alerts, token, price);
        let mut r: Vec<OracleEffect> = Vec::new();
        let mut i: usize = 0;
        while i < fired.len()
            invariant
                i <= fired.len(),
                pairs_view(fired@) == fired_alerts(self.alerts.pairs(), token@, price),
                r@.len() == i,
                forall|j: int|
                    0 <= j < i ==> alert_effect_matches(#[trigger] r@[j], pairs_view(fired@)[j], price),
            decreases fired.len() - i,
        {
            let entry = &fired[i];
            r.push(
                OracleEffect::Emit(
                    OracleEvent::AlertTriggered {
                        user_id: entry.0.clone(),
                        alert_id: entry.1.id.clone(),
                        token: entry.1.token.clone(),
                        price,
                    },
                ),
            );
            i = i + 1;
        }
        r
    }
}

/// Appends `candle` to the series of `token` in a candle store.
pub fn append_to_series(store: &mut KeyedStore<Vec<Candle>>, token: &String, candle: Candle)
    ensures
        candle_appended(*old(store), *final(store), token@, candle),
{
    let mut series = match store.get(token) {
        Some(s) => s.clone(),
        None => Vec::new(),
    };
    append_capped(&mut series, candle);
    store.insert(token.clone(), series);
}

} // verus!
