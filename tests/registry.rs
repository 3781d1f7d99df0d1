use oracle_microchain::metadata::{self as meta, MetadataState, OracleSourceMetadata, TokenMetadata};
use oracle_microchain::price_book::{self, PriceOracle};
use oracle_microchain::subscription::{
    plan_from_label, Operation, SubscriptionPlan, SubscriptionState, UsageType, PERIOD_MICROS,
};

fn s(x: &str) -> String {
    x.to_string()
}

#[test]
fn plan_prices() {
    assert_eq!(SubscriptionPlan::Free.get_price_usd(), 0);
    assert_eq!(SubscriptionPlan::Pro.get_price_usd(), 49);
    assert_eq!(SubscriptionPlan::Enterprise.get_price_usd(), 299);
}

#[test]
fn plan_limits_per_tier() {
    let free = SubscriptionPlan::Free.get_limits();
    assert_eq!(free.update_interval_ms, 10_000);
    assert_eq!(free.api_rate_limit_per_day, 1_000);
    assert_eq!(free.alerts_limit, 10);
    assert_eq!(free.tokens_access, vec![s("ETH"), s("BTC")]);
    assert_eq!(free.websocket_throttle_ms, 5_000);
    assert_eq!(free.historical_data_days, 7);
    let pro = SubscriptionPlan::Pro.get_limits();
    assert_eq!(pro.tokens_access, vec![s("ETH"), s("BTC"), s("SOL"), s("MATIC"), s("LINK")]);
    assert_eq!(pro.api_rate_limit_per_day, 100_000);
    assert_eq!(pro.historical_data_days, 90);
    let ent = SubscriptionPlan::Enterprise.get_limits();
    assert_eq!(ent.api_rate_limit_per_day, u64::MAX);
    assert_eq!(ent.alerts_limit, u64::MAX);
    assert_eq!(ent.tokens_access, vec![s("ALL")]);
    assert_eq!(ent.websocket_throttle_ms, 0);
}

#[test]
fn plan_labels() {
    assert_eq!(plan_from_label(&s("free")), Some(SubscriptionPlan::Free));
    assert_eq!(plan_from_label(&s("pro")), Some(SubscriptionPlan::Pro));
    assert_eq!(plan_from_label(&s("enterprise")), Some(SubscriptionPlan::Enterprise));
    assert_eq!(plan_from_label(&s("gold")), None);
    let state = SubscriptionState::new();
    assert!(state.plan_limits(&s("gold")).is_none());
    assert_eq!(state.plan_limits(&s("pro")).unwrap().alerts_limit, 100);
}

#[test]
fn subscribing_counts_users_and_revenue() {
    let mut state = SubscriptionState::new();
    state.execute_operation(Operation::SetSubscription { user_id: s("u"), plan: SubscriptionPlan::Pro }, 1_000);
    let sub = state.subscription(&s("u")).unwrap();
    assert!(sub.active);
    assert_eq!(sub.started_at, 1_000);
    assert_eq!(sub.expires_at, 1_000 + PERIOD_MICROS);
    assert_eq!(state.total_subscriptions(), 1);
    assert_eq!(state.total_revenue(), 4_900);
    state.handle_set_subscription(s("u"), SubscriptionPlan::Enterprise, 2_000);
    assert_eq!(state.total_subscriptions(), 1);
    assert_eq!(state.total_revenue(), 4_900 + 29_900);
    let usage = state.usage(&s("u")).unwrap();
    assert_eq!(usage.api_calls, 0);
    assert_eq!(usage.period_start, 2_000);
    assert_eq!(usage.period_end, 2_000 + PERIOD_MICROS);
}

#[test]
fn expiry_saturates_at_the_largest_time() {
    let mut state = SubscriptionState::new();
    state.handle_set_subscription(s("u"), SubscriptionPlan::Free, u64::MAX - 1);
    assert_eq!(state.subscription(&s("u")).unwrap().expires_at, u64::MAX);
}

#[test]
fn cancelling_deactivates_and_decrements() {
    let mut state = SubscriptionState::new();
    state.handle_set_subscription(s("u"), SubscriptionPlan::Free, 1);
    state.handle_cancel_subscription(s("u"));
    assert!(!state.subscription(&s("u")).unwrap().active);
    assert_eq!(state.total_subscriptions(), 0);
    state.handle_cancel_subscription(s("u"));
    assert_eq!(state.total_subscriptions(), 0);
    state.handle_cancel_subscription(s("ghost"));
    assert!(state.subscription(&s("ghost")).is_none());
    assert!(state.all_subscriptions().is_empty());
}

#[test]
fn usage_is_metered_and_reset() {
    let mut state = SubscriptionState::new();
    state.handle_set_subscription(s("u"), SubscriptionPlan::Free, 1);
    state.handle_record_usage(s("u"), UsageType::ApiCall, 5);
    state.handle_record_usage(s("u"), UsageType::WebSocketMessage, 2);
    state.handle_record_usage(s("u"), UsageType::AlertTriggered, 1);
    state.handle_record_usage(s("u"), UsageType::ApiCall, u64::MAX);
    let usage = state.usage(&s("u")).unwrap();
    assert_eq!(usage.api_calls, u64::MAX);
    assert_eq!(usage.websocket_messages, 2);
    assert_eq!(usage.alerts_triggered, 1);
    state.handle_reset_usage(s("u"), 50);
    let usage = state.usage(&s("u")).unwrap();
    assert_eq!(usage.api_calls, 0);
    assert_eq!(usage.period_start, 50);
    state.handle_record_usage(s("nobody"), UsageType::ApiCall, 1);
    assert!(state.usage(&s("nobody")).is_none());
}

#[test]
fn actions_follow_plan_limits() {
    let mut state = SubscriptionState::new();
    assert!(!state.can_perform_action(&s("u"), &s("api_call")));
    state.handle_set_subscription(s("u"), SubscriptionPlan::Free, 1);
    assert!(state.can_perform_action(&s("u"), &s("api_call")));
    assert!(state.can_perform_action(&s("u"), &s("websocket")));
    assert!(state.can_perform_action(&s("u"), &s("alert")));
    assert!(!state.can_perform_action(&s("u"), &s("dance")));
    state.handle_record_usage(s("u"), UsageType::ApiCall, 1_000);
    state.handle_record_usage(s("u"), UsageType::AlertTriggered, 9);
    assert!(!state.can_perform_action(&s("u"), &s("api_call")));
    assert!(state.can_perform_action(&s("u"), &s("alert")));
    state.handle_cancel_subscription(s("u"));
    assert!(!state.can_perform_action(&s("u"), &s("websocket")));
}

#[test]
fn defaults_register_tokens_sources_and_mappings() {
    let mut state = MetadataState::new();
    state.initialize_defaults();
    assert_eq!(state.all_tokens().len(), 5);
    assert_eq!(state.token(&s("BTC")).unwrap().decimals, 8);
    assert_eq!(state.token(&s("LINK")).unwrap().contract_address, Some(s("0x514910771AF9Ca656af840dff83E8264EcF986CA")));
    assert_eq!(state.all_oracle_sources().len(), 4);
    assert!(state.oracle_source(&s("API3")).unwrap().api_key_required);
    assert_eq!(state.oracle_source(&s("RedStone")).unwrap().reputation_base, 880_000);
    let eth = state.token_oracles(s("ETH")).unwrap();
    assert_eq!(eth.oracle_sources, vec![s("Chainlink"), s("Pyth"), s("API3"), s("RedStone")]);
    assert_eq!(eth.primary_source, "Chainlink");
    assert_eq!(state.token_oracles(s("SOL")).unwrap().primary_source, "Pyth");
    assert!(state.token_oracles(s("DOGE")).is_none());
}

#[test]
fn registry_operations_replace_by_key() {
    let mut state = MetadataState::new();
    let token = TokenMetadata {
        symbol: s("DOGE"),
        name: s("Dogecoin"),
        decimals: 8,
        chain: s("Dogecoin"),
        contract_address: None,
        logo_url: None,
        coingecko_id: None,
        active: false,
    };
    state.execute_operation(meta::Operation::RegisterToken { token }, 0);
    assert_eq!(state.token(&s("DOGE")).unwrap().name, "Dogecoin");
    assert!(state.all_tokens().is_empty());
    let oracle = OracleSourceMetadata {
        name: s("Band"),
        endpoint: s("https://band"),
        chain: s("Cosmos"),
        contract_address: None,
        api_key_required: false,
        update_frequency_ms: 10,
        reputation_base: 1,
        active: true,
    };
    state.execute_operation(meta::Operation::RegisterOracle { oracle }, 0);
    assert_eq!(state.all_oracle_sources().len(), 1);
    state.execute_operation(meta::Operation::MapTokenToOracles { token_symbol: s("DOGE"), oracle_sources: vec![] }, 0);
    assert_eq!(state.token_oracles(s("DOGE")).unwrap().primary_source, "");
    state.execute_operation(meta::Operation::UpdateConfig { key: s("k"), value: s("v1") }, 5);
    state.execute_operation(meta::Operation::UpdateConfig { key: s("k"), value: s("v2") }, 6);
    let c = state.config(&s("k")).unwrap();
    assert_eq!(c.value, "v2");
    assert_eq!(c.updated_at, 6);
    assert_eq!(state.all_configs().len(), 1);
}

#[test]
fn price_register_keeps_last_report() {
    let mut book = PriceOracle::new();
    assert!(book.latest_price().is_none());
    book.execute_operation(price_book::Operation::UpdatePrice { token: s("ETH"), price: 5, source: s("a"), network: s("n") }, 10);
    book.execute_operation(price_book::Operation::UpdatePrice { token: s("BTC"), price: 7, source: s("b"), network: s("n") }, 11);
    book.execute_operation(price_book::Operation::UpdatePrice { token: s("ETH"), price: 6, source: s("c"), network: s("n") }, 12);
    let eth = book.price(&s("ETH")).unwrap();
    assert_eq!(eth.price, 6);
    assert_eq!(eth.timestamp, 12);
    assert_eq!(book.latest_price().unwrap().token, "ETH");
    let all = book.all_prices();
    assert_eq!(all.len(), 2);
    assert_eq!(all[0].token, "ETH");
    assert!(book.price(&s("SOL")).is_none());
}

#[test]
fn defaults_hold_exactly_the_default_keys() {
    let mut state = MetadataState::new();
    state.initialize_defaults();
    assert_eq!(state.tokens.len(), 5);
    assert_eq!(state.oracle_sources.len(), 4);
    assert_eq!(state.token_oracle_mapping.len(), 5);
    assert_eq!(state.system_config.len(), 0);
}
