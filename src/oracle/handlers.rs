use vstd::prelude::*;

use crate::oracle::aggregation::{aggregate, count_label, count_label_of, multi_oracle, oracle_inputs};
use crate::oracle::alerts::{fired_alerts, remove_id, with_alert, without_id};
use crate::oracle::reputation::{
    initial_record, initial_touch, record, recorded_from, touch, touched_from,
};
use crate::oracle::state::{
    alert_effects, append_to_series, candle_appended, price_update_matches, quorum_reached,
    OracleState, MAX_QUORUM,
};
use crate::oracle::types::{
    AlertConfig, Candle, CandleInterval, ChainId, OracleEffect, OracleEvent, OracleInput,
    OracleMessage, OracleReputation, PriceData, Submission,
};
use crate::store::{upsert, KeyedStore};

verus! {

/// `b` is `a` after counting a submission of `source` at `timestamp`; other providers
/// unchanged.
pub open spec fn stats_touched(
    a: KeyedStore<OracleReputation>,
    b: KeyedStore<OracleReputation>,
    source: Seq<char>,
    timestamp: u64,
) -> bool {
    &&& b.spec_get(source) is Some
    &&& touched_from(a.spec_get(source), source, timestamp, b.spec_get(source)->Some_0)
    &&& forall|q: Seq<char>| q != source ==> #[trigger] b.spec_get(q) == a.spec_get(q)
}

/// `b` is `a` after recording measured metrics of `source` at `now`; other providers
/// unchanged.
pub open spec fn stats_recorded(
    a: KeyedStore<OracleReputation>,
    b: KeyedStore<OracleReputation>,
    source: Seq<char>,
    accuracy: u64,
    latency: u64,
    uptime: u64,
    now: u64,
) -> bool {
    &&& b.spec_get(source) is Some
    &&& recorded_from(a.spec_get(source), source, accuracy, latency, uptime, now, b.spec_get(source)->Some_0)
    &&& forall|q: Seq<char>| q != source ==> #[trigger] b.spec_get(q) == a.spec_get(q)
}

/// `e` sends a price request for `token` on behalf of `requester` to `destination`.
pub open spec fn request_matches(e: OracleEffect, destination: ChainId, token: Seq<char>, requester: ChainId) -> bool {
    match e {
        OracleEffect::Send { destination: d, message: OracleMessage::RequestPrice { token: t, requester: q } } => {
            &&& d == destination
            &&& t@ == token
            &&& q == requester
        },
        _ => false,
    }
}

/// The alert rules of `user`, or none.
pub open spec fn rules_of(alerts: KeyedStore<Vec<AlertConfig>>, user: Seq<char>) -> Seq<AlertConfig> {
    match alerts.spec_get(user) {
        Some(v) => v@,
        None => Seq::empty(),
    }
}

impl OracleState {
    /// `o` is `self` with `name` registered at `chain`, announced by `effects`.
    pub open spec fn registered(&self, chain: ChainId, name: Seq<char>, o: &OracleState, effects: Seq<OracleEffect>) -> bool {
        &&& o.providers.pairs() == upsert(self.providers.pairs(), name, chain)
        &&& o.providers.pairs().len() == self.providers.pairs().len() + if self.providers.spec_get(name) is None {
            1int
        } else {
            0int
        }
        &&& o.providers.spec_get(name) == Some(chain)
        &&& forall|q: Seq<char>| q != name ==> #[trigger] o.providers.spec_get(q) == self.providers.spec_get(q)
        &&& o.params == self.params
        &&& o.chain_id == self.chain_id
        &&& o.alerts == self.alerts
        &&& o.active_subscriptions == self.active_subscriptions
        &&& o.pending_prices == self.pending_prices
        &&& o.oracle_stats == self.oracle_stats
        &&& o.same_outputs(self)
        &&& effects.len() == 1
        &&& effects[0] matches OracleEffect::Emit(OracleEvent::ProviderRegistered { source, chain_id })
            && source@ == name && chain_id == chain
    }

    /// `o` is `self` with `candle` appended to the series of `token` for `interval`.
    pub open spec fn candle_stored(&self, token: Seq<char>, interval: CandleInterval, candle: Candle, o: &OracleState) -> bool {
        &&& candle_appended(self.series(interval), o.series(interval), token, candle)
        &&& forall|other: CandleInterval| other != interval ==> #[trigger] o.series(other) == self.series(other)
        &&& o.same_config(self)
        &&& o.pending_prices == self.pending_prices
        &&& o.oracle_stats == self.oracle_stats
        &&& o.prices == self.prices
        &&& o.price_history == self.price_history
        &&& o.latest_price == self.latest_price
        &&& o.total_queries == self.total_queries
    }

    /// `o` is `self` with only the alert rules changed, and only those of `user`.
    pub open spec fn only_rules_of_changed(&self, user: Seq<char>, o: &OracleState) -> bool {
        &&& forall|q: Seq<char>| q != user ==> #[trigger] o.alerts.spec_get(q) == self.alerts.spec_get(q)
        &&& o.params == self.params
        &&& o.chain_id == self.chain_id
        &&& o.providers == self.providers
        &&& o.active_subscriptions == self.active_subscriptions
        &&& o.pending_prices == self.pending_prices
        &&& o.oracle_stats == self.oracle_stats
        &&& o.same_outputs(self)
    }

    /// `o` is `self` after `user` set `alert`.
    pub open spec fn alert_set(&self, user: Seq<char>, alert: AlertConfig, o: &OracleState) -> bool {
        &&& o.alerts.spec_get(user) is Some
        &&& rules_of(o.alerts, user) == with_alert(rules_of(self.alerts, user), alert)
        &&& self.only_rules_of_changed(user, o)
    }

    /// `o` is `self` after `user` removed the rules with id `id`.
    pub open spec fn alert_removed(&self, user: Seq<char>, id: Seq<char>, o: &OracleState) -> bool {
        &&& self.alerts.spec_get(user) is Some ==> o.alerts.spec_get(user) is Some
            && rules_of(o.alerts, user) == without_id(rules_of(self.alerts, user), id)
        &&& self.alerts.spec_get(user) is None ==> o.alerts.spec_get(user) is None
        &&& self.only_rules_of_changed(user, o)
    }

    /// `o` is `self` after recording and publishing an aggregation computed elsewhere.
    pub open spec fn result_published(
        &self,
        token: Seq<char>,
        aggregated_price: u64,
        median: u64,
        twap: u64,
        vwap: u64,
        inputs: Seq<OracleInput>,
        timestamp: u64,
        o: &OracleState,
        effects: Seq<OracleEffect>,
    ) -> bool {
        let p = o.prices.spec_get(token)->Some_0;
        &&& o.prices.spec_get(token) is Some
        &&& p.token@ == token
        &&& p.price == aggregated_price
        &&& p.timestamp == timestamp
        &&& p.source@ == count_label_of(inputs.len())
        &&& p.network@ == multi_oracle()
        &&& p.median == median
        &&& p.twap == twap
        &&& p.vwap == vwap
        &&& self.price_recorded(o, p)
        &&& effects.len() >= 1
        &&& price_update_matches(effects[0], p, inputs)
        &&& alert_effects(effects.drop_first(), fired_alerts(self.alerts.pairs(), token, aggregated_price), aggregated_price)
        &&& o.same_config(self)
        &&& o.pending_prices == self.pending_prices
        &&& o.oracle_stats == self.oracle_stats
        &&& o.candles_1s == self.candles_1s
        &&& o.candles_1m == self.candles_1m
        &&& o.candles_1h == self.candles_1h
        &&& o.candles_24h == self.candles_24h
        &&& o.total_queries == self.total_queries
    }

    /// `o` is `self` after measured metrics of `source` were recorded at `now`.
    pub open spec fn reputation_recorded(
        &self,
        source: Seq<char>,
        accuracy: u64,
        latency: u64,
        uptime: u64,
        now: u64,
        o: &OracleState,
    ) -> bool {
        &&& stats_recorded(self.oracle_stats, o.oracle_stats, source, accuracy, latency, uptime, now)
        &&& o.same_config(self)
        &&& o.same_outputs(self)
        &&& o.pending_prices == self.pending_prices
    }

    /// `o` is `self` after `sub` was submitted for `token` at time `now`, where `fired` says
    /// whether the batch reached quorum and `effects` is what was published.
    pub open spec fn submitted(
        &self,
        token: Seq<char>,
        sub: Submission,
        now: u64,
        o: &OracleState,
        fired: bool,
        effects: Seq<OracleEffect>,
    ) -> bool {
        let batch = self.pending_of(token).push(sub);
        &&& o.same_config(self)
        &&& stats_touched(self.oracle_stats, o.oracle_stats, sub.source@, sub.timestamp)
        &&& fired == quorum_reached(batch.len(), self.providers.pairs().len())
        &&& o.pending_prices.spec_get(token) is Some
        &&& forall|q: Seq<char>| q != token ==> #[trigger] o.pending_prices.spec_get(q) == self.pending_prices.spec_get(q)
        &&& if fired {
            &&& o.pending_of(token).len() == 0
            &&& self.published(token, batch, now, o, effects)
        } else {
            &&& o.pending_of(token) == batch
            &&& o.same_outputs(self)
            &&& effects.len() == 0
        }
    }

    /// Aggregates `batch` for `token` at time `now`: records the price, appends a flat candle
    /// to every interval, counts the query, empties the token's batch (keeping it as an empty
    /// batch), and publishes the price with the alerts it fires.
    pub fn aggregate_and_publish(&mut self, token: &String, batch: &Vec<Submission>, now: u64) -> (r: Vec<
        OracleEffect,
    >)
        ensures
            old(self).published(token@, batch@, now, final(self), r@),
            final(self).same_config(old(self)),
            final(self).oracle_stats == old(self).oracle_stats,
    {
        let p = aggregate(token, batch, now);
        let price = p.price;
        let candle = Candle {
            open: price,
            high: price,
            low: price,
            close: price,
            volume: 0,
            timestamp: now,
        };
        let mut effects: Vec<OracleEffect> = Vec::new();
        effects.push(
            OracleEffect::Emit(
                OracleEvent::PriceUpdate {
                    token: token.clone(),
                    price,
                    aggregated_price: price,
                    median: p.median,
                    twap: p.twap,
                    vwap: p.vwap,
                    oracle_breakdown: oracle_inputs(batch),
                    timestamp: p.timestamp,
                },
            ),
        );
        self.record_price(p);
        append_to_series(&mut self.candles_1s, token, candle);
        append_to_series(&mut self.candles_1m, token, candle);
        append_to_series(&mut self.candles_1h, token, candle);
        append_to_series(&mut self.candles_24h, token, candle);
        let mut fired = self.check_alerts(token, price);
        let ghost fired_seq = fired@;
        effects.append(&mut fired);
        assert(effects@.drop_first() =~= fired_seq);
        self.total_queries = self.total_queries.saturating_add(1);
        self.pending_prices.insert(token.clone(), Vec::new());
        effects
    }

    /// Counts a submission of `source` at `timestamp` in its reputation record.
    pub fn update_provider_reputation(&mut self, source: &String, timestamp: u64)
        ensures
            stats_touched(old(self).oracle_stats, final(self).oracle_stats, source@, timestamp),
            final(self).same_config(old(self)),
            final(self).same_outputs(old(self)),
            final(self).pending_prices == old(self).pending_prices,
    {
        let mut rep = match self.oracle_stats.get(source) {
            Some(r) => r.clone(),
            None => initial_touch(source),
        };
        touch(&mut rep, timestamp);
        self.oracle_stats.insert(source.clone(), rep);
    }

    /// Adds a provider's price to the batch of `token`, counts it in the provider's
    /// reputation, and aggregates the batch once it holds `min(registered providers, 3)`
    /// submissions; the batch is then emptied. Returns whether it aggregated, and what was
    /// published.
    pub fn handle_submit_price(
        &mut self,
        token: String,
        price: u64,
        source: String,
        timestamp: u64,
        now: u64,
    ) -> (r: (bool, Vec<OracleEffect>))
        ensures
            old(self).submitted(
                token@,
                (Submission { source, price, timestamp }),
                now,
                final(self),
                r.0,
                r.1@,
            ),
    {
        let mut pending = match self.pending_prices.get(&token) {
            Some(b) => b.clone(),
            None => Vec::new(),
        };
        self.update_provider_reputation(&source, timestamp);
        pending.push(Submission { source, price, timestamp });
        let providers = self.providers.len();
        let quorum: usize = if providers < MAX_QUORUM as usize {
            providers
        } else {
            MAX_QUORUM as usize
        };
        if pending.len() >= quorum {
            let effects = self.aggregate_and_publish(&token, &pending, now);
            (true, effects)
        } else {
            self.pending_prices.insert(token, pending);
            (false, Vec::new())
        }
    }

    /// Registers `source_name` as a provider at `provider_chain` (replacing an earlier
    /// registration of the name) and announces it.
    pub fn handle_register_provider(&mut self, provider_chain: ChainId, source_name: String) -> (r: Vec<
        OracleEffect,
    >)
        ensures
            old(self).registered(provider_chain, source_name@, final(self), r@),
    {
        let announced = source_name.clone();
        self.providers.insert(source_name, provider_chain);
        let mut r: Vec<OracleEffect> = Vec::new();
        r.push(OracleEffect::Emit(OracleEvent::ProviderRegistered { source: announced, chain_id: provider_chain }));
        r
    }

    /// Asks every registered provider, in registration order, for a fresh quote of `token`
    /// on behalf of `requester`.
    pub fn handle_price_request(&self, token: &String, requester: ChainId) -> (r: Vec<OracleEffect>)
        ensures
            r@.len() == self.providers.pairs().len(),
            forall|i: int| 0 <= i < r@.len() ==> request_matches(#[trigger] r@[i], self.providers.pairs()[i].1, token@, requester),
    {
        let mut r: Vec<OracleEffect> = Vec::new();
        let mut i: usize = 0;
        while i < self.providers.len()
            invariant
                i <= self.providers.pairs().len(),
                r@.len() == i,
                forall|j: int| 0 <= j < i ==> request_matches(#[trigger] r@[j], self.providers.pairs()[j].1, token@, requester),
            decreases self.providers.pairs().len() - i,
        {
            let destination = *self.providers.value_at(i);
            r.push(OracleEffect::Send {
                destination,
                message: OracleMessage::RequestPrice { token: token.clone(), requester },
            });
            i = i + 1;
        }
        r
    }

    /// Records an aggregation computed elsewhere and publishes it with the alerts it fires.
    pub fn handle_aggregation_result(
        &mut self,
        token: String,
        aggregated_price: u64,
        median: u64,
        twap: u64,
        vwap: u64,
        oracle_inputs: Vec<OracleInput>,
        timestamp: u64,
    ) -> (r: Vec<OracleEffect>)
        ensures
            old(self).result_published(
                token@,
                aggregated_price,
                median,
                twap,
                vwap,
                oracle_inputs@,
                timestamp,
                final(self),
                r@,
            ),
    {
        let p = PriceData {
            token: token.clone(),
            price: aggregated_price,
            timestamp,
            source: count_label(oracle_inputs.len()),
            network: String::from_str("Multi-Oracle"),
            median,
            twap,
            vwap,
        };
        self.record_price(p);
        let mut effects: Vec<OracleEffect> = Vec::new();
        effects.push(OracleEffect::Emit(OracleEvent::PriceUpdate {
            token: token.clone(),
            price: aggregated_price,
            aggregated_price,
            median,
            twap,
            vwap,
            oracle_breakdown: oracle_inputs,
            timestamp,
        }));
        let mut fired = self.check_alerts(&token, aggregated_price);
        let ghost fired_seq = fired@;
        effects.append(&mut fired);
        assert(effects@.drop_first() =~= fired_seq);
        effects
    }

    /// Asks the aggregator chain for a fresh aggregated price of `token`, naming this chain as
    /// the requester.
    pub fn handle_request_aggregation(&self, token: String) -> (r: Vec<OracleEffect>)
        ensures
            r@.len() == 1,
            request_matches(r@[0], self.params.aggregator_chain, token@, self.chain_id),
    {
        let mut r: Vec<OracleEffect> = Vec::new();
        r.push(OracleEffect::Send {
            destination: self.params.aggregator_chain,
            message: OracleMessage::RequestPrice { token, requester: self.chain_id },
        });
        r
    }

    /// Stores an already bucketed candle in the series of `token` for `interval`.
    pub fn handle_candle_update(&mut self, token: String, interval: CandleInterval, candle: Candle)
        ensures
            old(self).candle_stored(token@, interval, candle, final(self)),
    {
        match interval {
            CandleInterval::OneSecond => append_to_series(&mut self.candles_1s, &token, candle),
            CandleInterval::OneMinute => append_to_series(&mut self.candles_1m, &token, candle),
            CandleInterval::OneHour => append_to_series(&mut self.candles_1h, &token, candle),
            CandleInterval::TwentyFourHour => append_to_series(&mut self.candles_24h, &token, candle),
        }
    }

    /// Creates or replaces (by id) an alert rule of `user_id`; the rule goes to the end of
    /// the user's list.
    pub fn handle_set_alert(&mut self, user_id: String, alert: AlertConfig)
        ensures
            old(self).alert_set(user_id@, alert, final(self)),
    {
        let current = match self.alerts.get(&user_id) {
            Some(rules) => remove_id(rules, &alert.id),
            None => Vec::new(),
        };
        let mut rules = current;
        rules.push(alert);
        self.alerts.insert(user_id, rules);
    }

    /// Removes the rules of `user_id` with id `alert_id`; a user without rules is left as is.
    pub fn handle_remove_alert(&mut self, user_id: String, alert_id: String)
        ensures
            old(self).alert_removed(user_id@, alert_id@, final(self)),
    {
        let kept = match self.alerts.get(&user_id) {
            Some(rules) => Some(remove_id(rules, &alert_id)),
            None => None,
        };
        match kept {
            Some(rules) => self.alerts.insert(user_id, rules),
            None => {},
        }
    }

    /// Folds measured accuracy, latency and uptime of `source` into its reputation with an
    /// exponential moving average of smoothing factor 1/10.
    pub fn handle_reputation_update(&mut self, source: String, accuracy: u64, latency: u64, uptime: u64, now: u64)
        ensures
            old(self).reputation_recorded(source@, accuracy, latency, uptime, now, final(self)),
    {
        let mut rep = match self.oracle_stats.get(&source) {
            Some(r) => r.clone(),
            None => initial_record(&source),
        };
        record(&mut rep, accuracy, latency, uptime, now);
        self.oracle_stats.insert(source, rep);
    }
}

/// Aggregation fires exactly when the batch, counting the new submission, holds at least
/// `min(registered providers, 3)` submissions.
pub proof fn lemma_aggregation_waits_for_quorum(
    s: OracleState,
    token: Seq<char>,
    sub: Submission,
    now: u64,
    o: OracleState,
    fired: bool,
    effects: Seq<OracleEffect>,
)
    requires
        s.submitted(token, sub, now, &o, fired, effects),
    ensures
        fired <==> s.pending_of(token).len() + 1 >= vstd::math::min(s.providers.pairs().len() as int, 3),
        !fired ==> o.pending_of(token).len() == s.pending_of(token).len() + 1 && effects.len() == 0,
{
}

/// After a batch is aggregated the token's batch is empty, so the next submission starts a
/// fresh batch holding only itself.
pub proof fn lemma_next_submission_starts_fresh_batch(
    s0: OracleState,
    token: Seq<char>,
    sub1: Submission,
    now1: u64,
    s1: OracleState,
    effects1: Seq<OracleEffect>,
    sub2: Submission,
    now2: u64,
    s2: OracleState,
    fired2: bool,
    effects2: Seq<OracleEffect>,
)
    requires
        s0.submitted(token, sub1, now1, &s1, true, effects1),
        s1.submitted(token, sub2, now2, &s2, fired2, effects2),
    ensures
        s1.pending_of(token).len() == 0,
        s1.pending_of(token).push(sub2) == seq![sub2],
        fired2 ==> s1.published(token, seq![sub2], now2, &s2, effects2),
        !fired2 ==> s2.pending_of(token) == seq![sub2],
{
    assert(s1.pending_of(token).push(sub2) =~= seq![sub2]);
}

} // verus!
