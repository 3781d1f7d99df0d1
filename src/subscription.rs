//! Subscription plans, per-user subscriptions and usage metering.
use vstd::prelude::*;

use crate::store::{Entries, KeyedStore};

verus! {

/// Length of a subscription or usage period: thirty days in microseconds.
pub const PERIOD_MICROS: u64 = 2_592_000_000_000;

/// Marker naming the interface of the subscription application.
pub struct SubscriptionAbi;

/// Billing tier of a subscriber.
#[derive(Clone, Copy, Debug, PartialEq, Eq, Structural)]
pub enum SubscriptionPlan {
    Free,
    Pro,
    Enterprise,
}

/// Kind of metered usage.
#[derive(Clone, Copy, Debug, PartialEq, Eq, Structural)]
pub enum UsageType {
    ApiCall,
    WebSocketMessage,
    AlertTriggered,
}

/// Limits that come with a plan; `u64::MAX` stands for unlimited.
#[derive(Debug)]
pub struct PlanLimits {
    pub update_interval_ms: u64,
    pub api_rate_limit_per_day: u64,
    pub alerts_limit: u64,
    pub tokens_access: Vec<String>,
    pub websocket_throttle_ms: u64,
    pub historical_data_days: u64,
}

#[derive(Debug)]
pub struct Subscription {
    pub user_id: String,
    pub plan: SubscriptionPlan,
    pub started_at: u64,
    pub expires_at: u64,
    pub active: bool,
}

impl Clone for Subscription {
    fn clone(&self) -> (r: Self)
        ensures
            r == *self,
    {
        Subscription {
            user_id: self.user_id.clone(),
            plan: self.plan,
            started_at: self.started_at,
            expires_at: self.expires_at,
            active: self.active,
        }
    }
}

/// A user's metered usage in the current period.
#[derive(Debug)]
pub struct Usage {
    pub user_id: String,
    pub api_calls: u64,
    pub websocket_messages: u64,
    pub alerts_triggered: u64,
    pub period_start: u64,
    pub period_end: u64,
}

impl Clone for Usage {
    fn clone(&self) -> (r: Self)
        ensures
            r == *self,
    {
        Usage {
            user_id: self.user_id.clone(),
            api_calls: self.api_calls,
            websocket_messages: self.websocket_messages,
            alerts_triggered: self.alerts_triggered,
            period_start: self.period_start,
            period_end: self.period_end,
        }
    }
}

/// Requests made of the subscription application.
#[derive(Debug)]
pub enum Operation {
    /// Create or change a subscription.
    SetSubscription { user_id: String, plan: SubscriptionPlan },
    /// Cancel a subscription.
    CancelSubscription { user_id: String },
    /// Meter usage.
    RecordUsage { user_id: String, usage_type: UsageType, amount: u64 },
    /// Start a new usage period.
    ResetUsage { user_id: String },
}

/// Monthly price of a plan in whole US dollars.
pub open spec fn plan_price_usd(plan: SubscriptionPlan) -> u64 {
    match plan {
        SubscriptionPlan::Free => 0,
        SubscriptionPlan::Pro => 49,
        SubscriptionPlan::Enterprise => 299,
    }
}

/// The tokens a plan gives access to; `"ALL"` stands for every token.
pub open spec fn plan_tokens(plan: SubscriptionPlan) -> Seq<Seq<char>> {
    match plan {
        SubscriptionPlan::Free => seq!["ETH"@, "BTC"@],
        SubscriptionPlan::Pro => seq!["ETH"@, "BTC"@, "SOL"@, "MATIC"@, "LINK"@],
        SubscriptionPlan::Enterprise => seq!["ALL"@],
    }
}

/// `l` holds the limits of `plan`.
pub open spec fn limits_of(plan: SubscriptionPlan, l: PlanLimits) -> bool {
    &&& l.tokens_access@.map_values(|t: String| t@) == plan_tokens(plan)
    &&& match plan {
        SubscriptionPlan::Free => {
            &&& l.update_interval_ms == 10_000
            &&& l.api_rate_limit_per_day == 1_000
            &&& l.alerts_limit == 10
            &&& l.websocket_throttle_ms == 5_000
            &&& l.historical_data_days == 7
        },
        SubscriptionPlan::Pro => {
            &&& l.update_interval_ms == 1_000
            &&& l.api_rate_limit_per_day == 100_000
            &&& l.alerts_limit == 100
            &&& l.websocket_throttle_ms == 100
            &&& l.historical_data_days == 90
        },
        SubscriptionPlan::Enterprise => {
            &&& l.update_interval_ms == 100
            &&& l.api_rate_limit_per_day == u64::MAX
            &&& l.alerts_limit == u64::MAX
            &&& l.websocket_throttle_ms == 0
            &&& l.historical_data_days == 365
        },
    }
}

/// The plan that a label such as `"pro"` names.
pub open spec fn label_plan(label: Seq<char>) -> Option<SubscriptionPlan> {
    if label == "free"@ {
        Some(SubscriptionPlan::Free)
    } else if label == "pro"@ {
        Some(SubscriptionPlan::Pro)
    } else if label == "enterprise"@ {
        Some(SubscriptionPlan::Enterprise)
    } else {
        None
    }
}

pub open spec fn sat_add(a: u64, b: u64) -> u64 {
    if a + b > u64::MAX {
        u64::MAX
    } else {
        (a + b) as u64
    }
}

pub open spec fn sat_sub_one(a: u64) -> u64 {
    if a > 0 {
        (a - 1) as u64
    } else {
        0
    }
}

fn owned(s: &str) -> (r: String)
    ensures
        r@ == s@,
{
    String::from_str(s)
}

impl SubscriptionPlan {
    /// The limits that come with the plan.
    pub fn get_limits(&self) -> (r: PlanLimits)
        ensures
            limits_of(*self, r),
    {
        match self {
            SubscriptionPlan::Free => {
                let mut tokens: Vec<String> = Vec::new();
                tokens.push(owned("ETH"));
                tokens.push(owned("BTC"));
                let r = PlanLimits {
                    update_interval_ms: 10_000,
                    api_rate_limit_per_day: 1_000,
                    alerts_limit: 10,
                    tokens_access: tokens,
                    websocket_throttle_ms: 5_000,
                    historical_data_days: 7,
                };
                assert(r.tokens_access@.map_values(|t: String| t@) =~= plan_tokens(*self));
                r
            },
            SubscriptionPlan::Pro => {
                let mut tokens: Vec<String> = Vec::new();
                tokens.push(owned("ETH"));
                tokens.push(owned("BTC"));
                tokens.push(owned("SOL"));
                tokens.push(owned("MATIC"));
                tokens.push(owned("LINK"));
                let r = PlanLimits {
                    update_interval_ms: 1_000,
                    api_rate_limit_per_day: 100_000,
                    alerts_limit: 100,
                    tokens_access: tokens,
                    websocket_throttle_ms: 100,
                    historical_data_days: 90,
                };
                assert(r.tokens_access@.map_values(|t: String| t@) =~= plan_tokens(*self));
                r
            },
            SubscriptionPlan::Enterprise => {
                let mut tokens: Vec<String> = Vec::new();
                tokens.push(owned("ALL"));
                let r = PlanLimits {
                    update_interval_ms: 100,
                    api_rate_limit_per_day: u64::MAX,
                    alerts_limit: u64::MAX,
                    tokens_access: tokens,
                    websocket_throttle_ms: 0,
                    historical_data_days: 365,
                };
                assert(r.tokens_access@.map_values(|t: String| t@) =~= plan_tokens(*self));
                r
            },
        }
    }

    /// Monthly price of the plan in whole US dollars.
    pub fn get_price_usd(&self) -> (r: u64)
        ensures
            r == plan_price_usd(*self),
    {
        match self {
            SubscriptionPlan::Free => 0,
            SubscriptionPlan::Pro => 49,
            SubscriptionPlan::Enterprise => 299,
        }
    }
}

/// The plan that `label` names: `"free"`, `"pro"` or `"enterprise"`.
pub fn plan_from_label(label: &String) -> (r: Option<SubscriptionPlan>)
    ensures
        r == label_plan(label@),
{
    if *label == owned("free") {
        Some(SubscriptionPlan::Free)
    } else if *label == owned("pro") {
        Some(SubscriptionPlan::Pro)
    } else if *label == owned("enterprise") {
        Some(SubscriptionPlan::Enterprise)
    } else {
        None
    }
}

/// Whether a user with this subscription and usage may perform `action`: an API call or an
/// alert while under the plan's limit, a websocket message always, and only while the
/// subscription is active; any other action never.
pub open spec fn may_perform(sub: Subscription, usage: Usage, action: Seq<char>) -> bool {
    sub.active && if action == "api_call"@ {
        usage.api_calls < match sub.plan {
            SubscriptionPlan::Free => 1_000u64,
            SubscriptionPlan::Pro => 100_000u64,
            SubscriptionPlan::Enterprise => u64::MAX,
        }
    } else if action == "websocket"@ {
        true
    } else if action == "alert"@ {
        usage.alerts_triggered < match sub.plan {
            SubscriptionPlan::Free => 10u64,
            SubscriptionPlan::Pro => 100u64,
            SubscriptionPlan::Enterprise => u64::MAX,
        }
    } else {
        false
    }
}

/// `u` is a fresh usage record of `user` for the period starting at `now`.
pub open spec fn fresh_usage(user: Seq<char>, now: u64, u: Usage) -> bool {
    &&& u.user_id@ == user
    &&& u.api_calls == 0
    &&& u.websocket_messages == 0
    &&& u.alerts_triggered == 0
    &&& u.period_start == now
    &&& u.period_end == sat_add(now, PERIOD_MICROS)
}

/// `u` is `prev` with `amount` added (held at the largest value) to the counter of `kind`.
pub open spec fn usage_added(prev: Usage, kind: UsageType, amount: u64, u: Usage) -> bool {
    &&& u.user_id == prev.user_id
    &&& u.period_start == prev.period_start
    &&& u.period_end == prev.period_end
    &&& u.api_calls == if kind == UsageType::ApiCall {
        sat_add(prev.api_calls, amount)
    } else {
        prev.api_calls
    }
    &&& u.websocket_messages == if kind == UsageType::WebSocketMessage {
        sat_add(prev.websocket_messages, amount)
    } else {
        prev.websocket_messages
    }
    &&& u.alerts_triggered == if kind == UsageType::AlertTriggered {
        sat_add(prev.alerts_triggered, amount)
    } else {
        prev.alerts_triggered
    }
}

/// Subscriptions and usage per user, with the subscription count and the revenue in cents.
pub struct SubscriptionState {
    pub subscriptions: KeyedStore<Subscription>,
    pub usage: KeyedStore<Usage>,
    pub total_subscriptions: u64,
    pub total_revenue: u64,
}

impl SubscriptionState {
    /// `o` is `self` after `user_id` subscribed to `plan` at `now`.
    pub open spec fn subscribed(&self, user_id: Seq<char>, plan: SubscriptionPlan, now: u64, o: &SubscriptionState) -> bool {
        &&& o.subscriptions.spec_get(user_id) matches Some(s) && s.user_id@ == user_id && s.plan == plan
            && s.started_at == now && s.expires_at == sat_add(now, PERIOD_MICROS) && s.active
        &&& forall|q: Seq<char>| q != user_id ==> #[trigger] o.subscriptions.spec_get(q) == self.subscriptions.spec_get(q)
        &&& o.usage.spec_get(user_id) matches Some(u) && fresh_usage(user_id, now, u)
        &&& forall|q: Seq<char>| q != user_id ==> #[trigger] o.usage.spec_get(q) == self.usage.spec_get(q)
        &&& o.total_subscriptions == if self.subscriptions.spec_get(user_id) is None {
            sat_add(self.total_subscriptions, 1)
        } else {
            self.total_subscriptions
        }
        &&& o.total_revenue == sat_add(self.total_revenue, (plan_price_usd(plan) * 100) as u64)
    }

    /// `o` is `self` after `user_id` cancelled: the subscription is kept but inactive.
    pub open spec fn cancelled(&self, user_id: Seq<char>, o: &SubscriptionState) -> bool {
        &&& match self.subscriptions.spec_get(user_id) {
            Some(s) => {
                &&& o.subscriptions.spec_get(user_id) == Some(Subscription { active: false, ..s })
                &&& o.total_subscriptions == sat_sub_one(self.total_subscriptions)
            },
            None => {
                &&& o.subscriptions == self.subscriptions
                &&& o.total_subscriptions == self.total_subscriptions
            },
        }
        &&& forall|q: Seq<char>| q != user_id ==> #[trigger] o.subscriptions.spec_get(q) == self.subscriptions.spec_get(q)
        &&& o.usage == self.usage
        &&& o.total_revenue == self.total_revenue
    }

    /// `o` is `self` after `amount` of `usage_type` was metered for `user_id`.
    pub open spec fn usage_recorded(&self, user_id: Seq<char>, usage_type: UsageType, amount: u64, o: &SubscriptionState) -> bool {
        &&& match self.usage.spec_get(user_id) {
            Some(u) => o.usage.spec_get(user_id) matches Some(v) && usage_added(u, usage_type, amount, v),
            None => o.usage == self.usage,
        }
        &&& forall|q: Seq<char>| q != user_id ==> #[trigger] o.usage.spec_get(q) == self.usage.spec_get(q)
        &&& o.subscriptions == self.subscriptions
        &&& o.total_subscriptions == self.total_subscriptions
        &&& o.total_revenue == self.total_revenue
    }

    /// `o` is `self` after the usage period of `user_id` was restarted at `now`.
    pub open spec fn usage_reset(&self, user_id: Seq<char>, now: u64, o: &SubscriptionState) -> bool {
        &&& match self.usage.spec_get(user_id) {
            Some(u) => o.usage.spec_get(user_id) matches Some(v) && fresh_usage(u.user_id@, now, v) && v.user_id == u.user_id,
            None => o.usage == self.usage,
        }
        &&& forall|q: Seq<char>| q != user_id ==> #[trigger] o.usage.spec_get(q) == self.usage.spec_get(q)
        &&& o.subscriptions == self.subscriptions
        &&& o.total_subscriptions == self.total_subscriptions
        &&& o.total_revenue == self.total_revenue
    }

    pub fn new() -> (r: Self)
        ensures
            r.subscriptions.pairs().len() == 0,
            r.usage.pairs().len() == 0,
            r.total_subscriptions == 0,
            r.total_revenue == 0,
    {
        SubscriptionState {
            subscriptions: KeyedStore::new(),
            usage: KeyedStore::new(),
            total_subscriptions: 0,
            total_revenue: 0,
        }
    }

    /// Starts (or restarts) `user_id` on `plan` at time `now` for thirty days: counts a new
    /// subscriber, adds the plan's price in cents to the revenue, and opens a fresh usage
    /// period. Counters are held at the largest value.
    pub fn handle_set_subscription(&mut self, user_id: String, plan: SubscriptionPlan, now: u64)
        ensures
            old(self).subscribed(user_id@, plan, now, final(self)),
    {
        let expires_at = now.saturating_add(PERIOD_MICROS);
        let is_new = !self.subscriptions.contains_key(&user_id);
        let subscription = Subscription {
            user_id: user_id.clone(),
            plan,
            started_at: now,
            expires_at,
            active: true,
        };
        self.subscriptions.insert(user_id.clone(), subscription);
        if is_new {
            self.total_subscriptions = self.total_subscriptions.saturating_add(1);
        }
        let price = plan.get_price_usd() * 100;
        self.total_revenue = self.total_revenue.saturating_add(price);
        let usage = Usage {
            user_id: user_id.clone(),
            api_calls: 0,
            websocket_messages: 0,
            alerts_triggered: 0,
            period_start: now,
            period_end: expires_at,
        };
        self.usage.insert(user_id, usage);
    }

    /// Marks the subscription of `user_id` inactive and decrements the count (not below zero);
    /// an unknown user changes nothing.
    pub fn handle_cancel_subscription(&mut self, user_id: String)
        ensures
            old(self).cancelled(user_id@, final(self)),
    {
        let current = match self.subscriptions.get(&user_id) {
            Some(s) => Some(s.clone()),
            None => None,
        };
        if let Some(mut s) = current {
            s.active = false;
            self.subscriptions.insert(user_id, s);
            if self.total_subscriptions > 0 {
                self.total_subscriptions = self.total_subscriptions - 1;
            }
        }
    }

    /// Adds `amount` to the usage counter of `usage_type` for `user_id` (held at the largest
    /// value); a user without a usage record changes nothing.
    pub fn handle_record_usage(&mut self, user_id: String, usage_type: UsageType, amount: u64)
        ensures
            old(self).usage_recorded(user_id@, usage_type, amount, final(self)),
    {
        let current = match self.usage.get(&user_id) {
            Some(u) => Some(u.clone()),
            None => None,
        };
        if let Some(mut u) = current {
            match usage_type {
                UsageType::ApiCall => u.api_calls = u.api_calls.saturating_add(amount),
                UsageType::WebSocketMessage => u.websocket_messages = u.websocket_messages.saturating_add(amount),
                UsageType::AlertTriggered => u.alerts_triggered = u.alerts_triggered.saturating_add(amount),
            }
            self.usage.insert(user_id, u);
        }
    }

    /// Opens a fresh thirty-day usage period for `user_id` at `now`; a user without a usage
    /// record changes nothing.
    pub fn handle_reset_usage(&mut self, user_id: String, now: u64)
        ensures
            old(self).usage_reset(user_id@, now, final(self)),
    {
        let current = match self.usage.get(&user_id) {
            Some(u) => Some(u.clone()),
            None => None,
        };
        if let Some(mut u) = current {
            u.api_calls = 0;
            u.websocket_messages = 0;
            u.alerts_triggered = 0;
            u.period_start = now;
            u.period_end = now.saturating_add(PERIOD_MICROS);
            self.usage.insert(user_id, u);
        }
    }

    /// Executes an operation at time `now`.
    pub fn execute_operation(&mut self, operation: Operation, now: u64)
        ensures
            match operation {
                Operation::SetSubscription { user_id, plan } => old(self).subscribed(user_id@, plan, now, final(self)),
                Operation::CancelSubscription { user_id } => old(self).cancelled(user_id@, final(self)),
                Operation::RecordUsage { user_id, usage_type, amount } => old(self).usage_recorded(user_id@, usage_type, amount, final(self)),
                Operation::ResetUsage { user_id } => old(self).usage_reset(user_id@, now, final(self)),
            },
    {
        match operation {
            Operation::SetSubscription { user_id, plan } => self.handle_set_subscription(user_id, plan, now),
            Operation::CancelSubscription { user_id } => self.handle_cancel_subscription(user_id),
            Operation::RecordUsage { user_id, usage_type, amount } => self.handle_record_usage(
                user_id,
                usage_type,
                amount,
            ),
            Operation::ResetUsage { user_id } => self.handle_reset_usage(user_id, now),
        }
    }

    /// The subscription of `user_id`.
    pub fn subscription(&self, user_id: &String) -> (r: Option<Subscription>)
        ensures
            r == self.subscriptions.spec_get(user_id@),
    {
        match self.subscriptions.get(user_id) {
            Some(s) => Some(s.clone()),
            None => None,
        }
    }

    /// The usage record of `user_id`.
    pub fn usage(&self, user_id: &String) -> (r: Option<Usage>)
        ensures
            r == self.usage.spec_get(user_id@),
    {
        match self.usage.get(user_id) {
            Some(u) => Some(u.clone()),
            None => None,
        }
    }

    /// The limits of the plan labelled `plan`; none for an unknown label.
    pub fn plan_limits(&self, plan: &String) -> (r: Option<PlanLimits>)
        ensures
            match label_plan(plan@) {
                Some(p) => r matches Some(l) && limits_of(p, l),
                None => r is None,
            },
    {
        match plan_from_label(plan) {
            Some(p) => Some(p.get_limits()),
            None => None,
        }
    }

    /// Whether `user_id` may perform `action` (`"api_call"`, `"websocket"` or `"alert"`);
    /// never without both a subscription and a usage record.
    pub fn can_perform_action(&self, user_id: &String, action: &String) -> (r: bool)
        ensures
            r == match (self.subscriptions.spec_get(user_id@), self.usage.spec_get(user_id@)) {
                (Some(s), Some(u)) => may_perform(s, u, action@),
                _ => false,
            },
    {
        let subscription = match self.subscriptions.get(user_id) {
            Some(s) => s,
            None => {
                return false;
            },
        };
        if !subscription.active {
            return false;
        }
        let usage = match self.usage.get(user_id) {
            Some(u) => u,
            None => {
                return false;
            },
        };
        let limits = subscription.plan.get_limits();
        if *action == owned("api_call") {
            usage.api_calls < limits.api_rate_limit_per_day
        } else if *action == owned("websocket") {
            true
        } else if *action == owned("alert") {
            usage.alerts_triggered < limits.alerts_limit
        } else {
            false
        }
    }

    pub fn total_subscriptions(&self) -> (r: u64)
        ensures
            r == self.total_subscriptions,
    {
        self.total_subscriptions
    }

    pub fn total_revenue(&self) -> (r: u64)
        ensures
            r == self.total_revenue,
    {
        self.total_revenue
    }

    /// The active subscriptions, in the order the users first subscribed.
    pub fn all_subscriptions(&self) -> (r: Vec<Subscription>)
        ensures
            r@ == active_subscriptions(self.subscriptions.pairs()),
    {
        let mut r: Vec<Subscription> = Vec::new();
        let mut i: usize = 0;
        while i < self.subscriptions.len()
            invariant
                i <= self.subscriptions.pairs().len(),
                r@ == active_subscriptions(self.subscriptions.pairs().subrange(0, i as int)),
            decreases self.subscriptions.pairs().len() - i,
        {
            let ghost prefix = self.subscriptions.pairs().subrange(0, i + 1);
            assert(prefix.drop_last() =~= self.subscriptions.pairs().subrange(0, i as int));
            let s = self.subscriptions.value_at(i);
            if s.active {
                r.push(s.clone());
            }
            i = i + 1;
        }
        assert(self.subscriptions.pairs().subrange(0, i as int) =~= self.subscriptions.pairs());
        r
    }
}

/// The active subscriptions among the entries, in order.
pub open spec fn active_subscriptions(s: Entries<Subscription>) -> Seq<Subscription>
    decreases s.len(),
{
    if s.len() == 0 {
        Seq::empty()
    } else {
        let rest = active_subscriptions(s.drop_last());
        if s.last().1.active {
            rest.push(s.last().1)
        } else {
            rest
        }
    }
}

} // verus!
