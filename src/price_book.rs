//! A plain price register: the last price reported for each token, as given.
use vstd::prelude::*;

use crate::store::KeyedStore;

verus! {

/// Marker naming the interface of the plain price register.
pub struct PriceOracleAbi;

/// A reported price; `price` in millionths of the quote unit.
#[derive(Debug)]
pub struct PriceData {
    pub token: String,
    pub price: u64,
    pub timestamp: u64,
    pub source: String,
    pub network: String,
}

impl Clone for PriceData {
    fn clone(&self) -> (r: Self)
        ensures
            r == *self,
    {
        PriceData {
            token: self.token.clone(),
            price: self.price,
            timestamp: self.timestamp,
            source: self.source.clone(),
            network: self.network.clone(),
        }
    }
}

#[derive(Debug)]
pub enum Operation {
    /// Report the price of a token.
    UpdatePrice { token: String, price: u64, source: String, network: String },
}

/// The last reported price per token, and the last report overall.
pub struct PriceOracle {
    pub prices: KeyedStore<PriceData>,
    pub latest_price: Option<PriceData>,
}

impl PriceOracle {
    pub fn new() -> (r: Self)
        ensures
            r.prices.pairs().len() == 0,
            r.latest_price is None,
    {
        PriceOracle { prices: KeyedStore::new(), latest_price: None }
    }

    /// Records a report at time `now` as the token's price and as the latest price.
    pub fn execute_operation(&mut self, operation: Operation, now: u64)
        ensures
            match operation {
                Operation::UpdatePrice { token, price, source, network } => {
                    let p = (PriceData { token, price, timestamp: now, source, network });
                    &&& final(self).prices.spec_get(token@) == Some(p)
                    &&& forall|q: Seq<char>| q != token@ ==> #[trigger] final(self).prices.spec_get(q) == old(self).prices.spec_get(q)
                    &&& final(self).latest_price == Some(p)
                },
            },
    {
        match operation {
            Operation::UpdatePrice { token, price, source, network } => {
                let p = PriceData { token: token.clone(), price, timestamp: now, source, network };
                self.prices.insert(token, p.clone());
                self.latest_price = Some(p);
            },
        }
    }

    /// The last report overall.
    pub fn latest_price(&self) -> (r: Option<PriceData>)
        ensures
            r == self.latest_price,
    {
        match &self.latest_price {
            Some(p) => Some(p.clone()),
            None => None,
        }
    }

    /// The last report for `token`.
    pub fn price(&self, token: &String) -> (r: Option<PriceData>)
        ensures
            r == self.prices.spec_get(token@),
    {
        match self.prices.get(token) {
            Some(p) => Some(p.clone()),
            None => None,
        }
    }

    /// The last report of every token, in the order the tokens were first reported.
    pub fn all_prices(&self) -> (r: Vec<PriceData>)
        ensures
            r@ == self.prices.pairs().map_values(|e: (Seq<char>, PriceData)| e.1),
    {
        let mut r: Vec<PriceData> = Vec::new();
        let mut i: usize = 0;
        while i < self.prices.len()
            invariant
                i <= self.prices.pairs().len(),
                r@ == self.prices.pairs().subrange(0, i as int).map_values(|e: (Seq<char>, PriceData)| e.1),
            decreases self.prices.pairs().len() - i,
        {
            r.push(self.prices.value_at(i).clone());
            i = i + 1;
            assert(r@ =~= self.prices.pairs().subrange(0, i as int).map_values(|e: (Seq<char>, PriceData)| e.1));
        }
        assert(self.prices.pairs().subrange(0, i as int) =~= self.prices.pairs());
        r
    }
}

} // verus!
