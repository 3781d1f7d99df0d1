use vstd::prelude::*;

use crate::oracle::state::{seq_at, OracleState};
use crate::oracle::types::{
    AggregatedStats, AlertConfig, Candle, CandleInterval, OracleReputation, PriceData,
};
use crate::store::Entries;

verus! {

/// Number of records a listing returns when the caller gives no limit.
pub const DEFAULT_LIMIT: u64 = 100;

/// The interval that a label such as `"1m"` names.
pub open spec fn label_interval(label: Seq<char>) -> Option<CandleInterval> {
    if label == "1s"@ {
        Some(CandleInterval::OneSecond)
    } else if label == "1m"@ {
        Some(CandleInterval::OneMinute)
    } else if label == "1h"@ {
        Some(CandleInterval::OneHour)
    } else if label == "24h"@ {
        Some(CandleInterval::TwentyFourHour)
    } else {
        None
    }
}

/// The last `min(limit, |s|)` elements of `s`, newest first.
pub open spec fn newest_first<T>(s: Seq<T>, limit: nat) -> Seq<T> {
    let n = if limit < s.len() {
        limit
    } else {
        s.len()
    };
    Seq::new(n, |i: int| s[s.len() - 1 - i])
}

pub open spec fn limit_or_default(limit: Option<u64>) -> nat {
    match limit {
        Some(l) => l as nat,
        None => DEFAULT_LIMIT as nat,
    }
}

pub open spec fn values_of<V>(s: Entries<V>) -> Seq<V> {
    s.map_values(|e: (Seq<char>, V)| e.1)
}

pub open spec fn latency_sum(s: Entries<OracleReputation>) -> int
    decreases s.len(),
{
    if s.len() == 0 {
        0
    } else {
        latency_sum(s.drop_last()) + s.last().1.latency_average
    }
}

pub open spec fn uptime_sum(s: Entries<OracleReputation>) -> int
    decreases s.len(),
{
    if s.len() == 0 {
        0
    } else {
        uptime_sum(s.drop_last()) + s.last().1.uptime
    }
}

/// Network figures: provider count, mean latency and mean uptime over all provider records
/// (rounded down; zero without providers), beside the query count.
pub open spec fn stats_of(s: Entries<OracleReputation>, total_queries: u64) -> AggregatedStats {
    let n = s.len();
    AggregatedStats {
        total_queries,
        avg_latency: if n == 0 {
            0
        } else {
            (latency_sum(s) / (n as int)) as u64
        },
        active_oracles: n as u64,
        network_uptime: if n == 0 {
            0
        } else {
            (uptime_sum(s) / (n as int)) as u64
        },
    }
}

proof fn lemma_sums_bounded(s: Entries<OracleReputation>)
    ensures
        0 <= latency_sum(s) <= s.len() * (u64::MAX as int),
        0 <= uptime_sum(s) <= s.len() * (u64::MAX as int),
    decreases s.len(),
{
    if s.len() > 0 {
        lemma_sums_bounded(s.drop_last());
        let n = s.len() as int;
        assert((n - 1) * (u64::MAX as int) + (u64::MAX as int) == n * (u64::MAX as int))
            by (nonlinear_arith);
    }
}

/// The interval that `label` names: `"1s"`, `"1m"`, `"1h"` or `"24h"`.
pub fn interval_from_label(label: &String) -> (r: Option<CandleInterval>)
    ensures
        r == label_interval(label@),
{
    if *label == String::from_str("1s") {
        Some(CandleInterval::OneSecond)
    } else if *label == String::from_str("1m") {
        Some(CandleInterval::OneMinute)
    } else if *label == String::from_str("1h") {
        Some(CandleInterval::OneHour)
    } else if *label == String::from_str("24h") {
        Some(CandleInterval::TwentyFourHour)
    } else {
        None
    }
}

fn take_limit(limit: Option<u64>) -> (r: u64)
    ensures
        r == limit_or_default(limit),
{
    match limit {
        Some(l) => l,
        None => DEFAULT_LIMIT,
    }
}

/// The newest candles of `series`, newest first, at most `limit` of them.
pub fn newest_candles(series: &Vec<Candle>, limit: u64) -> (r: Vec<Candle>)
    ensures
        r@ == newest_first(series@, limit as nat),
{
    let mut r: Vec<Candle> = Vec::new();
    let n = series.len();
    let mut i: usize = 0;
    while i < n && (i as u64) < limit
        invariant
            n == series.len(),
            i <= n,
            i <= limit,
            r@ == newest_first(series@, i as nat),
        decreases n - i,
    {
        r.push(series[n - 1 - i]);
        i = i + 1;
        assert(r@ =~= newest_first(series@, i as nat));
    }
    assert(r@ =~= newest_first(series@, limit as nat));
    r
}

/// The newest price records of `history`, newest first, at most `limit` of them.
pub fn newest_prices(history: &Vec<PriceData>, limit: u64) -> (r: Vec<PriceData>)
    ensures
        r@ == newest_first(history@, limit as nat),
{
    let mut r: Vec<PriceData> = Vec::new();
    let n = history.len();
    let mut i: usize = 0;
    while i < n && (i as u64) < limit
        invariant
            n == history.len(),
            i <= n,
            i <= limit,
            r@ == newest_first(history@, i as nat),
        decreases n - i,
    {
        r.push(history[n - 1 - i].clone());
        i = i + 1;
        assert(r@ =~= newest_first(history@, i as nat));
    }
    assert(r@ =~= newest_first(history@, limit as nat));
    r
}

impl OracleState {
    /// The most recently recorded price of any token.
    pub fn latest_price(&self) -> (r: Option<PriceData>)
        ensures
            r == self.latest_price,
    {
        match &self.latest_price {
            Some(p) => Some(p.clone()),
            None => None,
        }
    }

    /// The latest price record of `token`.
    pub fn price(&self, token: &String) -> (r: Option<PriceData>)
        ensures
            r == self.prices.spec_get(token@),
    {
        match self.prices.get(token) {
            Some(p) => Some(p.clone()),
            None => None,
        }
    }

    /// The latest price record of every token, in the order the tokens were first priced.
    pub fn all_prices(&self) -> (r: Vec<PriceData>)
        ensures
            r@ == values_of(self.prices.pairs()),
    {
        let mut r: Vec<PriceData> = Vec::new();
        let mut i: usize = 0;
        while i < self.prices.len()
            invariant
                i <= self.prices.pairs().len(),
                r@ == values_of(self.prices.pairs().subrange(0, i as int)),
            decreases self.prices.pairs().len() - i,
        {
            r.push(self.prices.value_at(i).clone());
            i = i + 1;
            assert(r@ =~= values_of(self.prices.pairs().subrange(0, i as int)));
        }
        assert(self.prices.pairs().subrange(0, i as int) =~= self.prices.pairs());
        r
    }

    /// The recorded prices of `token`, newest first, at most `limit` (by default 100).
    pub fn price_history(&self, token: &String, limit: Option<u64>) -> (r: Vec<PriceData>)
        ensures
            r@ == newest_first(seq_at(self.price_history, token@), limit_or_default(limit)),
    {
        let limit = take_limit(limit);
        match self.price_history.get(token) {
            Some(h) => newest_prices(h, limit),
            None => {
                let r: Vec<PriceData> = Vec::new();
                assert(r@ =~= newest_first(Seq::<PriceData>::empty(), limit as nat));
                r
            },
        }
    }

    /// The candles of `token` for the interval labelled `interval`, newest first, at most
    /// `limit` (by default 100); none for an unknown label.
    pub fn candles(&self, token: &String, interval: &String, limit: Option<u64>) -> (r: Vec<Candle>)
        ensures
            r@ == match label_interval(interval@) {
                Some(i) => newest_first(seq_at(self.series(i), token@), limit_or_default(limit)),
                None => Seq::empty(),
            },
    {
        let limit = take_limit(limit);
        let store = match interval_from_label(interval) {
            Some(CandleInterval::OneSecond) => &self.candles_1s,
            Some(CandleInterval::OneMinute) => &self.candles_1m,
            Some(CandleInterval::OneHour) => &self.candles_1h,
            Some(CandleInterval::TwentyFourHour) => &self.candles_24h,
            None => {
                return Vec::new();
            },
        };
        match store.get(token) {
            Some(series) => newest_candles(series, limit),
            None => {
                let r: Vec<Candle> = Vec::new();
                assert(r@ =~= newest_first(Seq::<Candle>::empty(), limit as nat));
                r
            },
        }
    }

    /// The alert rules of `user_id`, in order; none for an unknown user.
    pub fn user_alerts(&self, user_id: &String) -> (r: Vec<AlertConfig>)
        ensures
            r@ == seq_at(self.alerts, user_id@),
    {
        match self.alerts.get(user_id) {
            Some(rules) => rules.clone(),
            None => Vec::new(),
        }
    }

    /// The reputation record of `source`.
    pub fn oracle_reputation(&self, source: &String) -> (r: Option<OracleReputation>)
        ensures
            r == self.oracle_stats.spec_get(source@),
    {
        match self.oracle_stats.get(source) {
            Some(rep) => Some(rep.clone()),
            None => None,
        }
    }

    /// Every reputation record, in the order the providers were first seen.
    pub fn all_oracle_reputations(&self) -> (r: Vec<OracleReputation>)
        ensures
            r@ == values_of(self.oracle_stats.pairs()),
    {
        let mut r: Vec<OracleReputation> = Vec::new();
        let mut i: usize = 0;
        while i < self.oracle_stats.len()
            invariant
                i <= self.oracle_stats.pairs().len(),
                r@ == values_of(self.oracle_stats.pairs().subrange(0, i as int)),
            decreases self.oracle_stats.pairs().len() - i,
        {
            r.push(self.oracle_stats.value_at(i).clone());
            i = i + 1;
            assert(r@ =~= values_of(self.oracle_stats.pairs().subrange(0, i as int)));
        }
        assert(self.oracle_stats.pairs().subrange(0, i as int) =~= self.oracle_stats.pairs());
        r
    }

    /// Network figures over all provider records: see `stats_of`.
    pub fn network_stats(&self) -> (r: AggregatedStats)
        ensures
            r == stats_of(self.oracle_stats.pairs(), self.total_queries),
    {
        let ghost s = self.oracle_stats.pairs();
        let n = self.oracle_stats.len();
        let mut total_latency: u128 = 0;
        let mut total_uptime: u128 = 0;
        let mut i: usize = 0;
        while i < n
            invariant
                n == s.len(),
                s == self.oracle_stats.pairs(),
                i <= n,
                total_latency == latency_sum(s.subrange(0, i as int)),
                total_uptime == uptime_sum(s.subrange(0, i as int)),
            decreases n - i,
        {
            proof {
                let next = s.subrange(0, i + 1);
                assert(next.drop_last() =~= s.subrange(0, i as int));
                lemma_sums_bounded(next);
                let k = (i + 1) as int;
                assert(k * (u64::MAX as int) <= u128::MAX) by (nonlinear_arith)
                    requires
                        k <= usize::MAX + 1,
                ;
            }
            let rep = self.oracle_stats.value_at(i);
            total_latency = total_latency + rep.latency_average as u128;
            total_uptime = total_uptime + rep.uptime as u128;
            i = i + 1;
        }
        proof {
            assert(s.subrange(0, n as int) =~= s);
            lemma_sums_bounded(s);
        }
        if n == 0 {
            return AggregatedStats {
                total_queries: self.total_queries,
                avg_latency: 0,
                active_oracles: 0,
                network_uptime: 0,
            };
        }
        proof {
            let m = n as int;
            let a = total_latency as int;
            let b = total_uptime as int;
            assert(a / m <= u64::MAX) by (nonlinear_arith)
                requires
                    0 <= a <= m * (u64::MAX as int),
                    m > 0,
            ;
            assert(b / m <= u64::MAX) by (nonlinear_arith)
                requires
                    0 <= b <= m * (u64::MAX as int),
                    m > 0,
            ;
        }
        AggregatedStats {
            total_queries: self.total_queries,
            avg_latency: (total_latency / n as u128) as u64,
            active_oracles: n as u64,
            network_uptime: (total_uptime / n as u128) as u64,
        }
    }

    /// The time-weighted price of `token`.
    pub fn twap(&self, token: &String) -> (r: Option<u64>)
        ensures
            r == match self.prices.spec_get(token@) {
                Some(p) => Some(p.twap),
                None => None::<u64>,
            },
    {
        match self.prices.get(token) {
            Some(p) => Some(p.twap),
            None => None,
        }
    }

    /// The volume-weighted price of `token`.
    pub fn vwap(&self, token: &String) -> (r: Option<u64>)
        ensures
            r == match self.prices.spec_get(token@) {
                Some(p) => Some(p.vwap),
                None => None::<u64>,
            },
    {
        match self.prices.get(token) {
            Some(p) => Some(p.vwap),
            None => None,
        }
    }

    /// The median of the submissions behind the latest price of `token`.
    pub fn median(&self, token: &String) -> (r: Option<u64>)
        ensures
            r == match self.prices.spec_get(token@) {
                Some(p) => Some(p.median),
                None => None::<u64>,
            },
    {
        match self.prices.get(token) {
            Some(p) => Some(p.median),
            None => None,
        }
    }
}

} // verus!
