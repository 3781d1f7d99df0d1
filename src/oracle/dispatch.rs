use vstd::prelude::*;

use crate::oracle::handlers::request_matches;
use crate::oracle::state::{quorum_reached, OracleState};
use crate::oracle::types::{
    ChainId, Operation, OracleEffect, OracleError, OracleMessage, Submission,
};

verus! {

impl OracleState {
    /// `o` is `self` after `sub` was submitted for `token` at `now`, with `effects` published.
    pub open spec fn submit_step(&self, token: Seq<char>, sub: Submission, now: u64, o: &OracleState, effects: Seq<OracleEffect>) -> bool {
        self.submitted(
            token,
            sub,
            now,
            o,
            quorum_reached(self.pending_of(token).len() + 1, self.providers.pairs().len()),
            effects,
        )
    }

    /// What executing `operation` at time `now` does. A provider registration is accepted
    /// only on the registrar chain.
    pub open spec fn operation_step(
        &self,
        operation: Operation,
        now: u64,
        o: &OracleState,
        r: Result<Vec<OracleEffect>, OracleError>,
    ) -> bool {
        match operation {
            Operation::SubmitPrice { token, price, source, timestamp } => r is Ok && self.submit_step(
                token@,
                (Submission { source, price, timestamp }),
                now,
                o,
                r->Ok_0@,
            ),
            Operation::SubscribeTo { chain_id } => {
                &&& *o == *self
                &&& r is Ok
                &&& r->Ok_0@ == seq![OracleEffect::Subscribe(chain_id)]
            },
            Operation::UnsubscribeFrom { chain_id } => {
                &&& *o == *self
                &&& r is Ok
                &&& r->Ok_0@ == seq![OracleEffect::Unsubscribe(chain_id)]
            },
            Operation::RegisterProvider { provider_chain, source_name } => if self.chain_id
                == self.params.master_chain {
                r is Ok && self.registered(provider_chain, source_name@, o, r->Ok_0@)
            } else {
                &&& *o == *self
                &&& r == Err::<Vec<OracleEffect>, OracleError>(OracleError::UnauthorizedRegistration)
            },
            Operation::UpdateCandle { token, interval, candle } => {
                &&& self.candle_stored(token@, interval, candle, o)
                &&& r is Ok
                &&& r->Ok_0@.len() == 0
            },
            Operation::SetAlert { user_id, alert } => {
                &&& self.alert_set(user_id@, alert, o)
                &&& r is Ok
                &&& r->Ok_0@.len() == 0
            },
            Operation::RemoveAlert { user_id, alert_id } => {
                &&& self.alert_removed(user_id@, alert_id@, o)
                &&& r is Ok
                &&& r->Ok_0@.len() == 0
            },
            Operation::RequestAggregation { token } => {
                &&& *o == *self
                &&& r is Ok
                &&& r->Ok_0@.len() == 1
                &&& request_matches(r->Ok_0@[0], self.params.aggregator_chain, token@, self.chain_id)
            },
        }
    }

    /// What handling `message` from chain `origin` at time `now` does. A provider
    /// registration is accepted only from the registrar chain.
    pub open spec fn message_step(
        &self,
        origin: ChainId,
        message: OracleMessage,
        now: u64,
        o: &OracleState,
        r: Result<Vec<OracleEffect>, OracleError>,
    ) -> bool {
        match message {
            OracleMessage::SubmitPrice { token, price, source, timestamp } => r is Ok && self.submit_step(
                token@,
                (Submission { source, price, timestamp }),
                now,
                o,
                r->Ok_0@,
            ),
            OracleMessage::RequestPrice { token, requester } => {
                let es = r->Ok_0@;
                &&& *o == *self
                &&& r is Ok
                &&& es.len() == self.providers.pairs().len()
                &&& forall|i: int| 0 <= i < es.len() ==> request_matches(#[trigger] es[i], self.providers.pairs()[i].1, token@, requester)
            },
            OracleMessage::AggregationResult {
                token,
                aggregated_price,
                median,
                twap,
                vwap,
                oracle_inputs,
                timestamp,
            } => r is Ok && self.result_published(
                token@,
                aggregated_price,
                median,
                twap,
                vwap,
                oracle_inputs@,
                timestamp,
                o,
                r->Ok_0@,
            ),
            OracleMessage::RegisterProvider { provider_chain, source_name } => if origin
                == self.params.master_chain {
                r is Ok && self.registered(provider_chain, source_name@, o, r->Ok_0@)
            } else {
                &&& *o == *self
                &&& r == Err::<Vec<OracleEffect>, OracleError>(OracleError::UnauthorizedRegistration)
            },
        }
    }

    /// Executes an operation submitted on this chain at time `now`.
    pub fn execute_operation(&mut self, operation: Operation, now: u64) -> (r: Result<Vec<OracleEffect>, OracleError>)
        ensures
            old(self).operation_step(operation, now, final(self), r),
    {
        match operation {
            Operation::SubmitPrice { token, price, source, timestamp } => {
                let (_, effects) = self.handle_submit_price(token, price, source, timestamp, now);
                Ok(effects)
            },
            Operation::SubscribeTo { chain_id } => {
                let mut effects: Vec<OracleEffect> = Vec::new();
                effects.push(OracleEffect::Subscribe(chain_id));
                assert(effects@ =~= seq![OracleEffect::Subscribe(chain_id)]);
                Ok(effects)
            },
            Operation::UnsubscribeFrom { chain_id } => {
                let mut effects: Vec<OracleEffect> = Vec::new();
                effects.push(OracleEffect::Unsubscribe(chain_id));
                assert(effects@ =~= seq![OracleEffect::Unsubscribe(chain_id)]);
                Ok(effects)
            },
            Operation::RegisterProvider { provider_chain, source_name } => {
                if self.chain_id == self.params.master_chain {
                    Ok(self.handle_register_provider(provider_chain, source_name))
                } else {
                    Err(OracleError::UnauthorizedRegistration)
                }
            },
            Operation::UpdateCandle { token, interval, candle } => {
                self.handle_candle_update(token, interval, candle);
                Ok(Vec::new())
            },
            Operation::SetAlert { user_id, alert } => {
                self.handle_set_alert(user_id, alert);
                Ok(Vec::new())
            },
            Operation::RemoveAlert { user_id, alert_id } => {
                self.handle_remove_alert(user_id, alert_id);
                Ok(Vec::new())
            },
            Operation::RequestAggregation { token } => Ok(self.handle_request_aggregation(token)),
        }
    }

    /// Handles a message that arrived from chain `origin`, at time `now`.
    pub fn execute_message(&mut self, origin: ChainId, message: OracleMessage, now: u64) -> (r: Result<
        Vec<OracleEffect>,
        OracleError,
    >)
        ensures
            old(self).message_step(origin, message, now, final(self), r),
    {
        match message {
            OracleMessage::SubmitPrice { token, price, source, timestamp } => {
                let (_, effects) = self.handle_submit_price(token, price, source, timestamp, now);
                Ok(effects)
            },
            OracleMessage::RequestPrice { token, requester } => Ok(
                self.handle_price_request(&token, requester),
            ),
            OracleMessage::AggregationResult {
                token,
                aggregated_price,
                median,
                twap,
                vwap,
                oracle_inputs,
                timestamp,
            } => Ok(
                self.handle_aggregation_result(
                    token,
                    aggregated_price,
                    median,
                    twap,
                    vwap,
                    oracle_inputs,
                    timestamp,
                ),
            ),
            OracleMessage::RegisterProvider { provider_chain, source_name } => {
                if origin == self.params.master_chain {
                    Ok(self.handle_register_provider(provider_chain, source_name))
                } else {
                    Err(OracleError::UnauthorizedRegistration)
                }
            },
        }
    }
}

/// A provider registration from any chain but the registrar is refused and changes nothing.
pub proof fn lemma_unauthorized_registration_is_inert(
    s: OracleState,
    origin: ChainId,
    provider_chain: ChainId,
    source_name: String,
    now: u64,
    o: OracleState,
    r: Result<Vec<OracleEffect>, OracleError>,
)
    requires
        origin != s.params.master_chain,
        s.message_step(origin, OracleMessage::RegisterProvider { provider_chain, source_name }, now, &o, r),
    ensures
        r == Err::<Vec<OracleEffect>, OracleError>(OracleError::UnauthorizedRegistration),
        o == s,
        o.providers.pairs() == s.providers.pairs(),
{
}

} // verus!
