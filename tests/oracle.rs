use oracle_microchain::oracle::aggregation::{aggregate, count_label, mean, median, sort_prices};
use oracle_microchain::oracle::alerts::threshold_crossed;
use oracle_microchain::oracle::candles::{append_capped, CANDLE_CAPACITY};
use oracle_microchain::oracle::queries::interval_from_label;
use oracle_microchain::oracle::reputation::ema_step;
use oracle_microchain::oracle::state::OracleState;
use oracle_microchain::oracle::types::{
    AlertConfig, Candle, CandleInterval, ChainId, Operation, OracleEffect, OracleError,
    OracleEvent, OracleInput, OracleMessage, OracleParameters, Submission, ThresholdType,
    PRICE_SCALE, UNIT_RATIO,
};

const MASTER: ChainId = ChainId(1, 0, 0, 0);
const AGGREGATOR: ChainId = ChainId(2, 0, 0, 0);
const OTHER: ChainId = ChainId(9, 9, 9, 9);

fn s(x: &str) -> String {
    x.to_string()
}

fn units(whole: u64) -> u64 {
    whole * PRICE_SCALE
}

fn new_state() -> OracleState {
    OracleState::new(OracleParameters { master_chain: MASTER, aggregator_chain: AGGREGATOR }, AGGREGATOR)
}

fn register(state: &mut OracleState, name: &str, id: u64) {
    let r = state.execute_message(MASTER, OracleMessage::RegisterProvider {
        provider_chain: ChainId(100 + id, 0, 0, 0),
        source_name: s(name),
    }, 0);
    assert!(r.is_ok());
}

fn state_with_providers(n: u64) -> OracleState {
    let mut state = new_state();
    for i in 0..n {
        register(&mut state, &format!("provider{}", i), i);
    }
    state
}

fn submit(state: &mut OracleState, token: &str, price: u64, source: &str) -> (bool, Vec<OracleEffect>) {
    state.handle_submit_price(s(token), price, s(source), 10, 1_000)
}

fn alert(id: &str, token: &str, kind: ThresholdType, threshold: u64) -> AlertConfig {
    AlertConfig { id: s(id), token: s(token), threshold_type: kind, threshold_value: threshold, active: true, created_at: 0 }
}

fn candle(t: u64) -> Candle {
    Candle { open: t, high: t, low: t, close: t, volume: t, timestamp: t }
}

fn pending_len(state: &OracleState, token: &str) -> usize {
    state.pending_prices.get(&s(token)).map(|b| b.len()).unwrap_or(0)
}

#[test]
fn quorum_with_zero_providers_fires_on_first_submission() {
    let mut state = state_with_providers(0);
    let (fired, effects) = submit(&mut state, "ETH", units(100), "a");
    assert!(fired);
    assert!(!effects.is_empty());
    assert_eq!(pending_len(&state, "ETH"), 0);
}

#[test]
fn quorum_with_one_provider_fires_on_first_submission() {
    let mut state = state_with_providers(1);
    assert!(submit(&mut state, "ETH", units(100), "provider0").0);
}

#[test]
fn quorum_with_two_providers_waits_for_two() {
    let mut state = state_with_providers(2);
    let (fired, effects) = submit(&mut state, "ETH", units(100), "provider0");
    assert!(!fired);
    assert!(effects.is_empty());
    assert!(state.price(&s("ETH")).is_none());
    assert!(submit(&mut state, "ETH", units(102), "provider1").0);
}

#[test]
fn quorum_with_three_providers_waits_for_three() {
    let mut state = state_with_providers(3);
    assert!(!submit(&mut state, "ETH", units(100), "provider0").0);
    assert!(!submit(&mut state, "ETH", units(102), "provider1").0);
    assert_eq!(pending_len(&state, "ETH"), 2);
    assert!(submit(&mut state, "ETH", units(98), "provider2").0);
}

#[test]
fn quorum_with_many_providers_caps_at_three() {
    let mut state = state_with_providers(7);
    assert!(!submit(&mut state, "ETH", units(1), "provider0").0);
    assert!(!submit(&mut state, "ETH", units(2), "provider1").0);
    assert!(submit(&mut state, "ETH", units(3), "provider2").0);
}

#[test]
fn repeated_submissions_of_one_provider_count_toward_quorum() {
    let mut state = state_with_providers(3);
    assert!(!submit(&mut state, "ETH", units(1), "provider0").0);
    assert!(!submit(&mut state, "ETH", units(2), "provider0").0);
    assert!(submit(&mut state, "ETH", units(3), "provider0").0);
}

#[test]
fn batches_of_different_tokens_are_independent() {
    let mut state = state_with_providers(3);
    assert!(!submit(&mut state, "ETH", units(1), "provider0").0);
    assert!(!submit(&mut state, "BTC", units(2), "provider1").0);
    assert!(!submit(&mut state, "ETH", units(1), "provider1").0);
    assert_eq!(pending_len(&state, "ETH"), 2);
    assert_eq!(pending_len(&state, "BTC"), 1);
}

#[test]
fn median_of_odd_count_is_middle() {
    assert_eq!(median(&vec![10, 20, 30]), 20);
    assert_eq!(median(&vec![30, 10, 20]), 20);
}

#[test]
fn median_of_even_count_is_upper_middle() {
    assert_eq!(median(&vec![10, 20]), 20);
    assert_eq!(median(&vec![40, 10, 30, 20]), 30);
}

#[test]
fn median_of_nothing_is_zero() {
    assert_eq!(median(&vec![]), 0);
}

#[test]
fn mean_of_three() {
    assert_eq!(mean(&vec![10, 20, 30]), 20);
    assert_eq!(mean(&vec![units(10), units(20), units(30)]), units(20));
}

#[test]
fn mean_rounds_down_and_handles_extremes() {
    assert_eq!(mean(&vec![1, 2]), 1);
    assert_eq!(mean(&vec![]), 0);
    assert_eq!(mean(&vec![u64::MAX, u64::MAX]), u64::MAX);
}

#[test]
fn sort_prices_orders_ascending_with_duplicates() {
    assert_eq!(sort_prices(&vec![5, 1, 4, 1, 3]), vec![1, 1, 3, 4, 5]);
}

#[test]
fn aggregate_builds_the_price_record() {
    let batch = vec![
        Submission { source: s("a"), price: units(100), timestamp: 1 },
        Submission { source: s("b"), price: units(102), timestamp: 2 },
        Submission { source: s("c"), price: units(98), timestamp: 3 },
    ];
    let p = aggregate(&s("ETH"), &batch, 77);
    assert_eq!(p.token, "ETH");
    assert_eq!(p.price, units(100));
    assert_eq!(p.median, units(100));
    assert_eq!(p.twap, units(100));
    assert_eq!(p.vwap, units(100));
    assert_eq!(p.timestamp, 77);
    assert_eq!(p.source, "3 oracles");
    assert_eq!(p.network, "Multi-Oracle");
}

#[test]
fn count_label_writes_multi_digit_counts() {
    let batch: Vec<Submission> = (0..12)
        .map(|i| Submission { source: format!("p{}", i), price: 5, timestamp: i })
        .collect();
    assert_eq!(aggregate(&s("X"), &batch, 0).source, "12 oracles");
}

#[test]
fn batch_is_emptied_after_aggregation_and_next_starts_fresh() {
    let mut state = state_with_providers(2);
    assert!(!submit(&mut state, "ETH", units(100), "provider0").0);
    assert!(submit(&mut state, "ETH", units(200), "provider1").0);
    let batch = state.pending_prices.get(&s("ETH")).expect("batch kept");
    assert!(batch.is_empty());
    assert!(!submit(&mut state, "ETH", units(300), "provider0").0);
    let batch = state.pending_prices.get(&s("ETH")).expect("batch kept");
    assert_eq!(batch.len(), 1);
    assert_eq!(batch[0].price, units(300));
    let (fired, effects) = submit(&mut state, "ETH", units(500), "provider1");
    assert!(fired);
    match &effects[0] {
        OracleEffect::Emit(OracleEvent::PriceUpdate { price, oracle_breakdown, .. }) => {
            assert_eq!(*price, units(400));
            assert_eq!(oracle_breakdown.len(), 2);
        }
        other => panic!("unexpected effect {:?}", other),
    }
}

#[test]
fn candle_series_is_capped_fifo() {
    let mut series: Vec<Candle> = Vec::new();
    for t in 0..1000u64 {
        append_capped(&mut series, candle(t));
    }
    assert_eq!(series.len(), CANDLE_CAPACITY);
    append_capped(&mut series, candle(1000));
    assert_eq!(series.len(), 1000);
    assert_eq!(series[0], candle(1));
    assert_eq!(series[998], candle(999));
    assert_eq!(series[999], candle(1000));
    for (i, c) in series.iter().enumerate() {
        assert_eq!(c.timestamp, i as u64 + 1);
    }
}

#[test]
fn candle_update_goes_to_its_interval_only() {
    let mut state = new_state();
    let r = state.execute_operation(Operation::UpdateCandle { token: s("ETH"), interval: CandleInterval::OneHour, candle: candle(5) }, 0);
    assert!(r.unwrap().is_empty());
    assert_eq!(state.candles(&s("ETH"), &s("1h"), None), vec![candle(5)]);
    assert!(state.candles(&s("ETH"), &s("1m"), None).is_empty());
    assert!(state.candles(&s("ETH"), &s("5m"), None).is_empty());
}

#[test]
fn candles_are_listed_newest_first_with_limit() {
    let mut state = new_state();
    for t in 0..5 {
        state.handle_candle_update(s("ETH"), CandleInterval::OneSecond, candle(t));
    }
    assert_eq!(state.candles(&s("ETH"), &s("1s"), Some(2)), vec![candle(4), candle(3)]);
    assert_eq!(state.candles(&s("ETH"), &s("1s"), None).len(), 5);
    assert_eq!(state.candles(&s("ETH"), &s("1s"), Some(0)).len(), 0);
}

#[test]
fn interval_labels() {
    assert_eq!(interval_from_label(&s("1s")), Some(CandleInterval::OneSecond));
    assert_eq!(interval_from_label(&s("1m")), Some(CandleInterval::OneMinute));
    assert_eq!(interval_from_label(&s("1h")), Some(CandleInterval::OneHour));
    assert_eq!(interval_from_label(&s("24h")), Some(CandleInterval::TwentyFourHour));
    assert_eq!(interval_from_label(&s("1d")), None);
}

#[test]
fn reputation_ema_from_half_to_point_five_five() {
    assert_eq!(ema_step(UNIT_RATIO / 2, UNIT_RATIO), 550_000);
}

#[test]
fn reputation_ema_rounds_to_nearest() {
    assert_eq!(ema_step(0, 100), 10);
    assert_eq!(ema_step(10, 15), 11);
    assert_eq!(ema_step(0, 4), 0);
    assert_eq!(ema_step(0, 5), 1);
    assert_eq!(ema_step(u64::MAX, u64::MAX), u64::MAX);
}

#[test]
fn reputation_update_starts_from_zero_record() {
    let mut state = new_state();
    state.handle_reputation_update(s("pyth"), UNIT_RATIO, 100, UNIT_RATIO, 42);
    let rep = state.oracle_reputation(&s("pyth")).expect("recorded");
    assert_eq!(rep.accuracy, 100_000);
    assert_eq!(rep.latency_average, 10);
    assert_eq!(rep.uptime, 100_000);
    assert_eq!(rep.total_updates, 1);
    assert_eq!(rep.last_update, 42);
    assert_eq!(rep.variance, 0);
}

#[test]
fn submission_touches_reputation_with_full_defaults() {
    let mut state = state_with_providers(3);
    submit(&mut state, "ETH", units(1), "pyth");
    submit(&mut state, "BTC", units(1), "pyth");
    let rep = state.oracle_reputation(&s("pyth")).expect("touched");
    assert_eq!(rep.accuracy, UNIT_RATIO);
    assert_eq!(rep.uptime, UNIT_RATIO);
    assert_eq!(rep.total_updates, 2);
    assert_eq!(rep.last_update, 10);
}

#[test]
fn reputation_ema_after_touch() {
    let mut state = new_state();
    state.update_provider_reputation(&s("p"), 5);
    state.handle_reputation_update(s("p"), UNIT_RATIO / 2, 0, UNIT_RATIO, 6);
    let rep = state.oracle_reputation(&s("p")).unwrap();
    assert_eq!(rep.accuracy, 950_000);
    assert_eq!(rep.uptime, UNIT_RATIO);
    assert_eq!(rep.total_updates, 2);
}

#[test]
fn alert_above_threshold_boundaries() {
    let t = units(100);
    assert!(threshold_crossed(ThresholdType::Above, t, units(100)));
    assert!(threshold_crossed(ThresholdType::Above, t, units(150)));
    assert!(!threshold_crossed(ThresholdType::Above, t, 99_990_000));
}

#[test]
fn alert_below_threshold_boundaries() {
    let t = units(50);
    assert!(threshold_crossed(ThresholdType::Below, t, units(50)));
    assert!(threshold_crossed(ThresholdType::Below, t, units(10)));
    assert!(!threshold_crossed(ThresholdType::Below, t, 50_010_000));
}

#[test]
fn set_alert_with_same_id_replaces() {
    let mut state = new_state();
    state.handle_set_alert(s("u"), alert("a1", "ETH", ThresholdType::Above, units(100)));
    state.handle_set_alert(s("u"), alert("a2", "ETH", ThresholdType::Below, units(50)));
    state.handle_set_alert(s("u"), alert("a1", "BTC", ThresholdType::Below, units(7)));
    let rules = state.user_alerts(&s("u"));
    assert_eq!(rules.len(), 2);
    assert_eq!(rules[0].id, "a2");
    assert_eq!(rules[1].id, "a1");
    assert_eq!(rules[1].token, "BTC");
    assert_eq!(rules[1].threshold_value, units(7));
}

#[test]
fn remove_alert_drops_only_that_id() {
    let mut state = new_state();
    state.handle_set_alert(s("u"), alert("a1", "ETH", ThresholdType::Above, 1));
    state.handle_set_alert(s("u"), alert("a2", "ETH", ThresholdType::Above, 2));
    state.handle_remove_alert(s("u"), s("a1"));
    let rules = state.user_alerts(&s("u"));
    assert_eq!(rules.len(), 1);
    assert_eq!(rules[0].id, "a2");
    state.handle_remove_alert(s("nobody"), s("a2"));
    assert!(state.user_alerts(&s("nobody")).is_empty());
}

#[test]
fn check_alerts_fires_every_matching_active_rule() {
    let mut state = new_state();
    state.handle_set_alert(s("u1"), alert("up", "ETH", ThresholdType::Above, units(100)));
    state.handle_set_alert(s("u1"), alert("btc", "BTC", ThresholdType::Above, units(1)));
    let mut inactive = alert("off", "ETH", ThresholdType::Above, units(1));
    inactive.active = false;
    state.handle_set_alert(s("u2"), inactive);
    state.handle_set_alert(s("u2"), alert("down", "ETH", ThresholdType::Below, units(200)));
    let effects = state.check_alerts(&s("ETH"), units(150));
    let fired: Vec<(String, String)> = effects
        .iter()
        .map(|e| match e {
            OracleEffect::Emit(OracleEvent::AlertTriggered { user_id, alert_id, token, price }) => {
                assert_eq!(token, "ETH");
                assert_eq!(*price, units(150));
                (user_id.clone(), alert_id.clone())
            }
            other => panic!("unexpected effect {:?}", other),
        })
        .collect();
    assert_eq!(fired, vec![(s("u1"), s("up")), (s("u2"), s("down"))]);
    assert_eq!(state.check_alerts(&s("ETH"), units(150)).len(), 2);
}

#[test]
fn register_provider_from_unauthorized_chain_is_rejected() {
    let mut state = state_with_providers(1);
    let before = state.providers.len();
    let r = state.execute_message(OTHER, OracleMessage::RegisterProvider {
        provider_chain: ChainId(5, 5, 5, 5),
        source_name: s("mallory"),
    }, 0);
    assert_eq!(r.unwrap_err(), OracleError::UnauthorizedRegistration);
    assert_eq!(state.providers.len(), before);
    assert!(state.providers.get(&s("mallory")).is_none());
}

#[test]
fn register_provider_from_master_is_announced() {
    let mut state = new_state();
    let effects = state
        .execute_message(MASTER, OracleMessage::RegisterProvider { provider_chain: ChainId(5, 0, 0, 0), source_name: s("pyth") }, 0)
        .unwrap();
    assert_eq!(state.providers.get(&s("pyth")), Some(&ChainId(5, 0, 0, 0)));
    match &effects[..] {
        [OracleEffect::Emit(OracleEvent::ProviderRegistered { source, chain_id })] => {
            assert_eq!(source, "pyth");
            assert_eq!(*chain_id, ChainId(5, 0, 0, 0));
        }
        other => panic!("unexpected effects {:?}", other),
    }
}

#[test]
fn register_provider_operation_needs_the_master_chain() {
    let mut state = new_state();
    let r = state.execute_operation(Operation::RegisterProvider { provider_chain: ChainId(5, 0, 0, 0), source_name: s("p") }, 0);
    assert_eq!(r.unwrap_err(), OracleError::UnauthorizedRegistration);
    assert_eq!(state.providers.len(), 0);

    let mut master = OracleState::new(OracleParameters { master_chain: MASTER, aggregator_chain: AGGREGATOR }, MASTER);
    let r = master.execute_operation(Operation::RegisterProvider { provider_chain: ChainId(5, 0, 0, 0), source_name: s("p") }, 0);
    assert!(r.is_ok());
    assert_eq!(master.providers.len(), 1);
}

#[test]
fn end_to_end_three_providers() {
    let mut state = state_with_providers(3);
    state.handle_set_alert(s("alice"), alert("hit", "ETH", ThresholdType::Above, units(100)));
    state.handle_set_alert(s("bob"), alert("low", "ETH", ThresholdType::Above, units(90)));
    state.handle_set_alert(s("carol"), alert("miss", "ETH", ThresholdType::Above, units(101)));
    assert!(!submit(&mut state, "ETH", units(100), "provider0").0);
    assert!(!submit(&mut state, "ETH", units(102), "provider1").0);
    let (fired, effects) = submit(&mut state, "ETH", units(98), "provider2");
    assert!(fired);
    let p = state.price(&s("ETH")).expect("stored");
    assert_eq!(p.price, units(100));
    assert_eq!(p.median, units(100));
    assert_eq!(p.timestamp, 1_000);
    assert_eq!(state.latest_price().unwrap().price, units(100));
    assert_eq!(state.price_history(&s("ETH"), None).len(), 1);
    for label in ["1s", "1m", "1h", "24h"] {
        let cs = state.candles(&s("ETH"), &s(label), None);
        assert_eq!(cs.len(), 1);
        assert_eq!(cs[0].close, units(100));
    }
    assert_eq!(state.total_queries, 1);
    assert_eq!(effects.len(), 3);
    let alerted: Vec<String> = effects[1..]
        .iter()
        .map(|e| match e {
            OracleEffect::Emit(OracleEvent::AlertTriggered { alert_id, .. }) => alert_id.clone(),
            other => panic!("unexpected effect {:?}", other),
        })
        .collect();
    assert_eq!(alerted, vec![s("hit"), s("low")]);
    assert_eq!(state.median(&s("ETH")), Some(units(100)));
    assert_eq!(state.twap(&s("ETH")), Some(units(100)));
    assert_eq!(state.vwap(&s("BTC")), None);
}

#[test]
fn price_request_goes_to_every_provider() {
    let state = state_with_providers(2);
    let effects = state.handle_price_request(&s("ETH"), OTHER);
    assert_eq!(effects.len(), 2);
    for (i, e) in effects.iter().enumerate() {
        match e {
            OracleEffect::Send { destination, message: OracleMessage::RequestPrice { token, requester } } => {
                assert_eq!(*destination, ChainId(100 + i as u64, 0, 0, 0));
                assert_eq!(token, "ETH");
                assert_eq!(*requester, OTHER);
            }
            other => panic!("unexpected effect {:?}", other),
        }
    }
}

#[test]
fn request_aggregation_asks_the_aggregator() {
    let mut state = OracleState::new(OracleParameters { master_chain: MASTER, aggregator_chain: AGGREGATOR }, OTHER);
    let effects = state.execute_operation(Operation::RequestAggregation { token: s("SOL") }, 0).unwrap();
    match &effects[..] {
        [OracleEffect::Send { destination, message: OracleMessage::RequestPrice { token, requester } }] => {
            assert_eq!(*destination, AGGREGATOR);
            assert_eq!(token, "SOL");
            assert_eq!(*requester, OTHER);
        }
        other => panic!("unexpected effects {:?}", other),
    }
}

#[test]
fn subscribe_and_unsubscribe_are_passed_on() {
    let mut state = new_state();
    let e = state.execute_operation(Operation::SubscribeTo { chain_id: OTHER }, 0).unwrap();
    assert!(matches!(&e[..], [OracleEffect::Subscribe(c)] if *c == OTHER));
    let e = state.execute_operation(Operation::UnsubscribeFrom { chain_id: OTHER }, 0).unwrap();
    assert!(matches!(&e[..], [OracleEffect::Unsubscribe(c)] if *c == OTHER));
}

#[test]
fn aggregation_result_is_recorded_and_published() {
    let mut state = new_state();
    state.handle_set_alert(s("u"), alert("a", "ETH", ThresholdType::Below, units(60)));
    let inputs = vec![
        OracleInput { source: s("a"), price: units(50), latency: 3, timestamp: 1 },
        OracleInput { source: s("b"), price: units(52), latency: 4, timestamp: 2 },
    ];
    let effects = state
        .execute_message(AGGREGATOR, OracleMessage::AggregationResult {
            token: s("ETH"),
            aggregated_price: units(51),
            median: units(52),
            twap: units(51),
            vwap: units(51),
            oracle_inputs: inputs,
            timestamp: 9,
        }, 100)
        .unwrap();
    let p = state.price(&s("ETH")).unwrap();
    assert_eq!(p.price, units(51));
    assert_eq!(p.median, units(52));
    assert_eq!(p.timestamp, 9);
    assert_eq!(p.source, "2 oracles");
    assert_eq!(effects.len(), 2);
    assert_eq!(state.total_queries, 0);
    assert!(state.candles(&s("ETH"), &s("1s"), None).is_empty());
}

#[test]
fn network_stats_average_over_providers() {
    let mut state = new_state();
    assert_eq!(state.network_stats().active_oracles, 0);
    assert_eq!(state.network_stats().avg_latency, 0);
    state.handle_reputation_update(s("a"), UNIT_RATIO, 100, UNIT_RATIO, 1);
    state.handle_reputation_update(s("b"), UNIT_RATIO, 300, 0, 1);
    let stats = state.network_stats();
    assert_eq!(stats.active_oracles, 2);
    assert_eq!(stats.avg_latency, 20);
    assert_eq!(stats.network_uptime, 50_000);
    assert_eq!(state.all_oracle_reputations().len(), 2);
}

#[test]
fn history_and_listing_of_prices() {
    let mut state = state_with_providers(1);
    submit(&mut state, "ETH", units(1), "provider0");
    submit(&mut state, "ETH", units(2), "provider0");
    submit(&mut state, "BTC", units(3), "provider0");
    let h = state.price_history(&s("ETH"), Some(5));
    assert_eq!(h.iter().map(|p| p.price).collect::<Vec<_>>(), vec![units(2), units(1)]);
    assert_eq!(state.all_prices().len(), 2);
    assert_eq!(state.latest_price().unwrap().token, "BTC");
    assert!(state.price_history(&s("DOGE"), None).is_empty());
}

#[test]
fn aggregate_and_publish_empties_only_that_batch() {
    let mut state = state_with_providers(3);
    submit(&mut state, "ETH", units(1), "provider0");
    submit(&mut state, "BTC", units(2), "provider0");
    let batch = vec![Submission { source: s("x"), price: units(4), timestamp: 1 }];
    let effects = state.aggregate_and_publish(&s("ETH"), &batch, 5);
    assert!(!effects.is_empty());
    assert!(state.pending_prices.get(&s("ETH")).expect("batch kept").is_empty());
    assert_eq!(pending_len(&state, "BTC"), 1);
    assert_eq!(state.price(&s("ETH")).unwrap().price, units(4));
}

#[test]
fn registering_counts_new_names_once() {
    let mut state = new_state();
    register(&mut state, "pyth", 1);
    assert_eq!(state.providers.len(), 1);
    register(&mut state, "pyth", 2);
    assert_eq!(state.providers.len(), 1);
    assert_eq!(state.providers.get(&s("pyth")), Some(&ChainId(102, 0, 0, 0)));
    register(&mut state, "chainlink", 3);
    assert_eq!(state.providers.len(), 2);
}

#[test]
fn count_labels_in_decimal() {
    assert_eq!(count_label(0), "0 oracles");
    assert_eq!(count_label(7), "7 oracles");
    assert_eq!(count_label(10), "10 oracles");
    assert_eq!(count_label(1203), "1203 oracles");
}
