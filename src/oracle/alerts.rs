use vstd::prelude::*;

use crate::oracle::types::{AlertConfig, ThresholdType};
use crate::store::{Entries, KeyedStore};

verus! {

/// Whether `price` is past the threshold: at or above it for `Above`, at or below it for
/// `Below`.
pub open spec fn crosses(kind: ThresholdType, threshold: u64, price: u64) -> bool {
    match kind {
        ThresholdType::Above => price >= threshold,
        ThresholdType::Below => price <= threshold,
    }
}

/// Whether a rule fires for a new price of `token`.
pub open spec fn fires(rule: AlertConfig, token: Seq<char>, price: u64) -> bool {
    rule.active && rule.token@ == token && crosses(rule.threshold_type, rule.threshold_value, price)
}

/// The rules whose id is not `id`, in order.
pub open spec fn without_id(rules: Seq<AlertConfig>, id: Seq<char>) -> Seq<AlertConfig>
    decreases rules.len(),
{
    if rules.len() == 0 {
        rules
    } else {
        let rest = without_id(rules.drop_last(), id);
        if rules.last().id@ == id {
            rest
        } else {
            rest.push(rules.last())
        }
    }
}

/// A user's rules after setting `alert`: any rule with its id is dropped and it is appended.
pub open spec fn with_alert(rules: Seq<AlertConfig>, alert: AlertConfig) -> Seq<AlertConfig> {
    without_id(rules, alert.id@).push(alert)
}

/// The rules of one user that fire, each paired with the user, in order.
pub open spec fn user_fired(
    user: Seq<char>,
    rules: Seq<AlertConfig>,
    token: Seq<char>,
    price: u64,
) -> Seq<(Seq<char>, AlertConfig)>
    decreases rules.len(),
{
    if rules.len() == 0 {
        Seq::empty()
    } else {
        let rest = user_fired(user, rules.drop_last(), token, price);
        if fires(rules.last(), token, price) {
            rest.push((user, rules.last()))
        } else {
            rest
        }
    }
}

/// The rules of all users that fire, user by user in the order of the store.
pub open spec fn fired_alerts(
    users: Entries<Vec<AlertConfig>>,
    token: Seq<char>,
    price: u64,
) -> Seq<(Seq<char>, AlertConfig)>
    decreases users.len(),
{
    if users.len() == 0 {
        Seq::empty()
    } else {
        fired_alerts(users.drop_last(), token, price) + user_fired(
            users.last().0,
            users.last().1@,
            token,
            price,
        )
    }
}

pub open spec fn pairs_view(r: Seq<(String, AlertConfig)>) -> Seq<(Seq<char>, AlertConfig)> {
    r.map_values(|p: (String, AlertConfig)| (p.0@, p.1))
}

pub fn threshold_crossed(kind: ThresholdType, threshold: u64, price: u64) -> (r: bool)
    ensures
        r == crosses(kind, threshold, price),
{
    match kind {
        ThresholdType::Above => price >= threshold,
        ThresholdType::Below => price <= threshold,
    }
}

/// The rules whose id is not `id`.
pub fn remove_id(rules: &Vec<AlertConfig>, id: &String) -> (r: Vec<AlertConfig>)
    ensures
        r@ == without_id(rules@, id@),
{
    let mut r: Vec<AlertConfig> = Vec::new();
    let mut i: usize = 0;
    while i < rules.len()
        invariant
            i <= rules.len(),
            r@ == without_id(rules@.subrange(0, i as int), id@),
        decreases rules.len() - i,
    {
        let ghost prefix = rules@.subrange(0, i + 1);
        assert(prefix.drop_last() =~= rules@.subrange(0, i as int));
        if rules[i].id != *id {
            r.push(rules[i].clone());
        }
        i = i + 1;
    }
    assert(rules@.subrange(0, i as int) =~= rules@);
    r
}

/// No rule left by `without_id` has the id.
pub proof fn lemma_without_id_excludes(rules: Seq<AlertConfig>, id: Seq<char>)
    ensures
        forall|i: int|
            0 <= i < without_id(rules, id).len() ==> (#[trigger] without_id(rules, id)[i]).id@
                != id,
    decreases rules.len(),
{
    if rules.len() > 0 {
        lemma_without_id_excludes(rules.drop_last(), id);
    }
}

/// Setting a rule whose id is already taken replaces the old rule: afterwards the new rule
/// is the one and only rule with that id, at the end of the user's list.
pub proof fn lemma_set_alert_replaces(rules: Seq<AlertConfig>, alert: AlertConfig)
    ensures
        with_alert(rules, alert).last() == alert,
        forall|i: int|
            0 <= i < with_alert(rules, alert).len() && (#[trigger] with_alert(rules, alert)[i]).id@
                == alert.id@ ==> i == with_alert(rules, alert).len() - 1,
{
    lemma_without_id_excludes(rules, alert.id@);
    let w = without_id(rules, alert.id@);
    assert forall|i: int|
        0 <= i < with_alert(rules, alert).len() && (#[trigger] with_alert(rules, alert)[i]).id@
            == alert.id@ implies i == with_alert(rules, alert).len() - 1 by {
        if i < w.len() {
            assert(with_alert(rules, alert)[i] == w[i]);
        }
    }
}

/// The rules of one user that fire for a new price of `token`, appended to `out`.
fn collect_user_fired(
    user: &String,
    rules: &Vec<AlertConfig>,
    token: &String,
    price: u64,
    out: &mut Vec<(String, AlertConfig)>,
)
    ensures
        pairs_view(final(out)@) == pairs_view(old(out)@) + user_fired(user@, rules@, token@, price),
{
    let ghost start = pairs_view(out@);
    let mut i: usize = 0;
    while i < rules.len()
        invariant
            i <= rules.len(),
            pairs_view(out@) == start + user_fired(user@, rules@.subrange(0, i as int), token@, price),
        decreases rules.len() - i,
    {
        let ghost prefix = rules@.subrange(0, i + 1);
        assert(prefix.drop_last() =~= rules@.subrange(0, i as int));
        let rule = &rules[i];
        if rule.active && rule.token == *token && threshold_crossed(
            rule.threshold_type,
            rule.threshold_value,
            price,
        ) {
            let ghost before = out@;
            out.push((user.clone(), rule.clone()));
            assert(pairs_view(out@) =~= pairs_view(before).push((user@, rules@[i as int])));
        }
        i = i + 1;
    }
    assert(rules@.subrange(0, i as int) =~= rules@);
}

/// Every rule that fires for a new price of `token`, with its user.
pub fn evaluate_alerts(alerts: &KeyedStore<Vec<AlertConfig>>, token: &String, price: u64) -> (r: Vec<
    (String, AlertConfig),
>)
    ensures
        pairs_view(r@) == fired_alerts(alerts.pairs(), token@, price),
{
    let mut r: Vec<(String, AlertConfig)> = Vec::new();
    let mut i: usize = 0;
    assert(pairs_view(r@) =~= Seq::<(Seq<char>, AlertConfig)>::empty());
    while i < alerts.len()
        invariant
            i <= alerts.pairs().len(),
            pairs_view(r@) == fired_alerts(alerts.pairs().subrange(0, i as int), token@, price),
        decreases alerts.pairs().len() - i,
    {
        let ghost prefix = alerts.pairs().subrange(0, i + 1);
        assert(prefix.drop_last() =~= alerts.pairs().subrange(0, i as int));
        collect_user_fired(alerts.key_at(i), alerts.value_at(i), token, price, &mut r);
        i = i + 1;
    }
    assert(alerts.pairs().subrange(0, i as int) =~= alerts.pairs());
    r
}

} // verus!
