//! Registry of token and oracle-source metadata, the sources that price each token, and
//! system settings.
use vstd::prelude::*;

use crate::store::{Entries, KeyedStore};

verus! {

/// Marker naming the interface of the metadata application.
pub struct MetadataAbi;

#[derive(Debug)]
pub struct TokenMetadata {
    pub symbol: String,
    pub name: String,
    pub decimals: u8,
    pub chain: String,
    pub contract_address: Option<String>,
    pub logo_url: Option<String>,
    pub coingecko_id: Option<String>,
    pub active: bool,
}

fn clone_opt(s: &Option<String>) -> (r: Option<String>)
    ensures
        r == *s,
{
    match s {
        Some(v) => Some(v.clone()),
        None => None,
    }
}

impl Clone for TokenMetadata {
    fn clone(&self) -> (r: Self)
        ensures
            r == *self,
    {
        TokenMetadata {
            symbol: self.symbol.clone(),
            name: self.name.clone(),
            decimals: self.decimals,
            chain: self.chain.clone(),
            contract_address: clone_opt(&self.contract_address),
            logo_url: clone_opt(&self.logo_url),
            coingecko_id: clone_opt(&self.coingecko_id),
            active: self.active,
        }
    }
}

/// An oracle source. `reputation_base` is its starting score in parts per million of a
/// perfect score (95 points of 100 is 950_000).
#[derive(Debug)]
pub struct OracleSourceMetadata {
    pub name: String,
    pub endpoint: String,
    pub chain: String,
    pub contract_address: Option<String>,
    pub api_key_required: bool,
    pub update_frequency_ms: u64,
    pub reputation_base: u64,
    pub active: bool,
}

impl Clone for OracleSourceMetadata {
    fn clone(&self) -> (r: Self)
        ensures
            r == *self,
    {
        OracleSourceMetadata {
            name: self.name.clone(),
            endpoint: self.endpoint.clone(),
            chain: self.chain.clone(),
            contract_address: clone_opt(&self.contract_address),
            api_key_required: self.api_key_required,
            update_frequency_ms: self.update_frequency_ms,
            reputation_base: self.reputation_base,
            active: self.active,
        }
    }
}

/// The sources that price a token; the first one is the primary source.
#[derive(Debug)]
pub struct TokenOracleMapping {
    pub token_symbol: String,
    pub oracle_sources: Vec<String>,
    pub primary_source: String,
}

#[derive(Debug)]
pub struct SystemConfig {
    pub key: String,
    pub value: String,
    pub updated_at: u64,
}

impl Clone for SystemConfig {
    fn clone(&self) -> (r: Self)
        ensures
            r == *self,
    {
        SystemConfig { key: self.key.clone(), value: self.value.clone(), updated_at: self.updated_at }
    }
}

/// Requests made of the metadata application.
#[derive(Debug)]
pub enum Operation {
    /// Register or update a token.
    RegisterToken { token: TokenMetadata },
    /// Register or update an oracle source.
    RegisterOracle { oracle: OracleSourceMetadata },
    /// Set the sources of a token.
    MapTokenToOracles { token_symbol: String, oracle_sources: Vec<String> },
    /// Set a configuration value.
    UpdateConfig { key: String, value: String },
}

pub open spec fn views(s: Seq<String>) -> Seq<Seq<char>> {
    s.map_values(|t: String| t@)
}

/// The registry's records, each keyed by its symbol, name or key.
pub struct MetadataState {
    pub tokens: KeyedStore<TokenMetadata>,
    pub oracle_sources: KeyedStore<OracleSourceMetadata>,
    pub token_oracle_mapping: KeyedStore<Vec<String>>,
    pub system_config: KeyedStore<SystemConfig>,
}

fn owned(s: &str) -> (r: String)
    ensures
        r@ == s@,
{
    String::from_str(s)
}

fn some_owned(s: &str) -> (r: Option<String>)
    ensures
        r matches Some(v) && v@ == s@,
{
    Some(String::from_str(s))
}

/// The symbols of the default tokens.
pub open spec fn is_default_token(q: Seq<char>) -> bool {
    q == "ETH"@ || q == "BTC"@ || q == "SOL"@ || q == "MATIC"@ || q == "LINK"@
}

/// The names of the default oracle sources.
pub open spec fn is_default_source(q: Seq<char>) -> bool {
    q == "Chainlink"@ || q == "Pyth"@ || q == "API3"@ || q == "RedStone"@
}

/// The default token symbols differ from one another, and so do the default source names.
proof fn lemma_default_keys_distinct()
    ensures
        "ETH"@ != "BTC"@,
        "ETH"@ != "SOL"@,
        "ETH"@ != "MATIC"@,
        "ETH"@ != "LINK"@,
        "BTC"@ != "SOL"@,
        "BTC"@ != "MATIC"@,
        "BTC"@ != "LINK"@,
        "SOL"@ != "MATIC"@,
        "SOL"@ != "LINK"@,
        "MATIC"@ != "LINK"@,
        "Chainlink"@ != "Pyth"@,
        "Chainlink"@ != "API3"@,
        "Chainlink"@ != "RedStone"@,
        "Pyth"@ != "API3"@,
        "Pyth"@ != "RedStone"@,
        "API3"@ != "RedStone"@,
{
    reveal_strlit("ETH");
    reveal_strlit("BTC");
    reveal_strlit("SOL");
    reveal_strlit("MATIC");
    reveal_strlit("LINK");
    reveal_strlit("Chainlink");
    reveal_strlit("Pyth");
    reveal_strlit("API3");
    reveal_strlit("RedStone");
    assert("ETH"@[0] != "BTC"@[0]);
    assert("ETH"@[0] != "SOL"@[0]);
    assert("BTC"@[0] != "SOL"@[0]);
    assert("Pyth"@[0] != "API3"@[0]);
    assert("MATIC"@[0] != "LINK"@[0]);
    assert("Chainlink"@[0] != "RedStone"@[0]);
}

/// Registers the default tokens.
fn register_default_tokens(store: &mut KeyedStore<TokenMetadata>)
    ensures
        final(store).spec_get("ETH"@) matches Some(t) && t.symbol@ == "ETH"@ && t.decimals == 18 && t.active,
        final(store).spec_get("BTC"@) matches Some(t) && t.symbol@ == "BTC"@ && t.decimals == 8 && t.active,
        final(store).spec_get("SOL"@) matches Some(t) && t.symbol@ == "SOL"@ && t.decimals == 9 && t.active,
        final(store).spec_get("MATIC"@) matches Some(t) && t.symbol@ == "MATIC"@ && t.decimals == 18 && t.active,
        final(store).spec_get("LINK"@) matches Some(t) && t.symbol@ == "LINK"@ && t.decimals == 18 && t.active,
        forall|q: Seq<char>| !is_default_token(q) ==> #[trigger] final(store).spec_get(q) == old(store).spec_get(q),
        old(store).pairs().len() == 0 ==> final(store).pairs().len() == 5,
{
    proof {
        lemma_default_keys_distinct();
    }
    store.insert(owned("ETH"), TokenMetadata {
        symbol: owned("ETH"),
        name: owned("Ethereum"),
        decimals: 18,
        chain: owned("Ethereum"),
        contract_address: None,
        logo_url: some_owned("https://cryptologos.cc/logos/ethereum-eth-logo.png"),
        coingecko_id: some_owned("ethereum"),
        active: true,
    });
    store.insert(owned("BTC"), TokenMetadata {
        symbol: owned("BTC"),
        name: owned("Bitcoin"),
        decimals: 8,
        chain: owned("Bitcoin"),
        contract_address: None,
        logo_url: some_owned("https://cryptologos.cc/logos/bitcoin-btc-logo.png"),
        coingecko_id: some_owned("bitcoin"),
        active: true,
    });
    store.insert(owned("SOL"), TokenMetadata {
        symbol: owned("SOL"),
        name: owned("Solana"),
        decimals: 9,
        chain: owned("Solana"),
        contract_address: None,
        logo_url: some_owned("https://cryptologos.cc/logos/solana-sol-logo.png"),
        coingecko_id: some_owned("solana"),
        active: true,
    });
    store.insert(owned("MATIC"), TokenMetadata {
        symbol: owned("MATIC"),
        name: owned("Polygon"),
        decimals: 18,
        chain: owned("Polygon"),
        contract_address: None,
        logo_url: some_owned("https://cryptologos.cc/logos/polygon-matic-logo.png"),
        coingecko_id: some_owned("matic-network"),
        active: true,
    });
    store.insert(owned("LINK"), TokenMetadata {
        symbol: owned("LINK"),
        name: owned("Chainlink"),
        decimals: 18,
        chain: owned("Ethereum"),
        contract_address: some_owned("0x514910771AF9Ca656af840dff83E8264EcF986CA"),
        logo_url: some_owned("https://cryptologos.cc/logos/chainlink-link-logo.png"),
        coingecko_id: some_owned("chainlink"),
        active: true,
    });
}

/// Registers the default oracle sources.
fn register_default_oracles(store: &mut KeyedStore<OracleSourceMetadata>)
    ensures
        final(store).spec_get("Chainlink"@) matches Some(o) && o.name@ == "Chainlink"@
            && o.update_frequency_ms == 1000 && o.reputation_base == 950_000 && !o.api_key_required,
        final(store).spec_get("Pyth"@) matches Some(o) && o.name@ == "Pyth"@
            && o.update_frequency_ms == 400 && o.reputation_base == 930_000 && !o.api_key_required,
        final(store).spec_get("API3"@) matches Some(o) && o.name@ == "API3"@
            && o.update_frequency_ms == 1000 && o.reputation_base == 910_000 && o.api_key_required,
        final(store).spec_get("RedStone"@) matches Some(o) && o.name@ == "RedStone"@
            && o.update_frequency_ms == 2000 && o.reputation_base == 880_000 && !o.api_key_required,
        forall|q: Seq<char>| !is_default_source(q) ==> #[trigger] final(store).spec_get(q) == old(store).spec_get(q),
        old(store).pairs().len() == 0 ==> final(store).pairs().len() == 4,
{
    proof {
        lemma_default_keys_distinct();
    }
    store.insert(owned("Chainlink"), OracleSourceMetadata {
        name: owned("Chainlink"),
        endpoint: owned("https://ethereum-sepolia.publicnode.com"),
        chain: owned("Ethereum"),
        contract_address: some_owned("0x694AA1769357215DE4FAC081bf1f309aDC325306"),
        api_key_required: false,
        update_frequency_ms: 1000,
        reputation_base: 950_000,
        active: true,
    });
    store.insert(owned("Pyth"), OracleSourceMetadata {
        name: owned("Pyth"),
        endpoint: owned("https://hermes.pyth.network"),
        chain: owned("Multi-chain"),
        contract_address: None,
        api_key_required: false,
        update_frequency_ms: 400,
        reputation_base: 930_000,
        active: true,
    });
    store.insert(owned("API3"), OracleSourceMetadata {
        name: owned("API3"),
        endpoint: owned("https://api3.org"),
        chain: owned("Multi-chain"),
        contract_address: None,
        api_key_required: true,
        update_frequency_ms: 1000,
        reputation_base: 910_000,
        active: true,
    });
    store.insert(owned("RedStone"), OracleSourceMetadata {
        name: owned("RedStone"),
        endpoint: owned("https://api.redstone.finance"),
        chain: owned("Multi-chain"),
        contract_address: None,
        api_key_required: false,
        update_frequency_ms: 2000,
        reputation_base: 880_000,
        active: true,
    });
}

/// Sets the sources of the default tokens.
fn map_default_tokens(store: &mut KeyedStore<Vec<String>>)
    ensures
        final(store).spec_get("ETH"@) matches Some(v) && views(v@) == seq![
            "Chainlink"@,
            "Pyth"@,
            "API3"@,
            "RedStone"@,
        ],
        final(store).spec_get("BTC"@) matches Some(v) && views(v@) == seq![
            "Chainlink"@,
            "Pyth"@,
            "RedStone"@,
        ],
        final(store).spec_get("SOL"@) matches Some(v) && views(v@) == seq![
            "Pyth"@,
            "RedStone"@,
        ],
        final(store).spec_get("MATIC"@) matches Some(v) && views(v@) == seq![
            "Chainlink"@,
            "Pyth"@,
        ],
        final(store).spec_get("LINK"@) matches Some(v) && views(v@) == seq![
            "Chainlink"@,
            "Pyth"@,
        ],
        forall|q: Seq<char>| !is_default_token(q) ==> #[trigger] final(store).spec_get(q) == old(store).spec_get(q),
        old(store).pairs().len() == 0 ==> final(store).pairs().len() == 5,
{
    proof {
        lemma_default_keys_distinct();
    }
    let mut eth: Vec<String> = Vec::new();
    eth.push(owned("Chainlink"));
    eth.push(owned("Pyth"));
    eth.push(owned("API3"));
    eth.push(owned("RedStone"));
    assert(views(eth@) =~= seq!["Chainlink"@, "Pyth"@, "API3"@, "RedStone"@]);
    store.insert(owned("ETH"), eth);
    let mut btc: Vec<String> = Vec::new();
    btc.push(owned("Chainlink"));
    btc.push(owned("Pyth"));
    btc.push(owned("RedStone"));
    assert(views(btc@) =~= seq!["Chainlink"@, "Pyth"@, "RedStone"@]);
    store.insert(owned("BTC"), btc);
    let mut sol: Vec<String> = Vec::new();
    sol.push(owned("Pyth"));
    sol.push(owned("RedStone"));
    assert(views(sol@) =~= seq!["Pyth"@, "RedStone"@]);
    store.insert(owned("SOL"), sol);
    let mut matic: Vec<String> = Vec::new();
    matic.push(owned("Chainlink"));
    matic.push(owned("Pyth"));
    assert(views(matic@) =~= seq!["Chainlink"@, "Pyth"@]);
    store.insert(owned("MATIC"), matic);
    let mut link: Vec<String> = Vec::new();
    link.push(owned("Chainlink"));
    link.push(owned("Pyth"));
    assert(views(link@) =~= seq!["Chainlink"@, "Pyth"@]);
    store.insert(owned("LINK"), link);
}

impl MetadataState {
    pub fn new() -> (r: Self)
        ensures
            r.tokens.pairs().len() == 0,
            r.oracle_sources.pairs().len() == 0,
            r.token_oracle_mapping.pairs().len() == 0,
            r.system_config.pairs().len() == 0,
    {
        MetadataState {
            tokens: KeyedStore::new(),
            oracle_sources: KeyedStore::new(),
            token_oracle_mapping: KeyedStore::new(),
            system_config: KeyedStore::new(),
        }
    }

    /// Registers the default tokens (ETH, BTC, SOL, MATIC, LINK), the default oracle sources
    /// (Chainlink, Pyth, API3, RedStone) and the sources of each default token.
    pub fn initialize_defaults(&mut self)
        ensures
            final(self).tokens.spec_get("ETH"@) matches Some(t) && t.symbol@ == "ETH"@ && t.decimals == 18 && t.active,
            final(self).tokens.spec_get("BTC"@) matches Some(t) && t.symbol@ == "BTC"@ && t.decimals == 8 && t.active,
            final(self).tokens.spec_get("SOL"@) matches Some(t) && t.symbol@ == "SOL"@ && t.decimals == 9 && t.active,
            final(self).tokens.spec_get("MATIC"@) matches Some(t) && t.symbol@ == "MATIC"@ && t.decimals == 18 && t.active,
            final(self).tokens.spec_get("LINK"@) matches Some(t) && t.symbol@ == "LINK"@ && t.decimals == 18 && t.active,
            final(self).oracle_sources.spec_get("Chainlink"@) matches Some(o) && o.name@ == "Chainlink"@
                && o.update_frequency_ms == 1000 && o.reputation_base == 950_000 && !o.api_key_required,
            final(self).oracle_sources.spec_get("Pyth"@) matches Some(o) && o.name@ == "Pyth"@
                && o.update_frequency_ms == 400 && o.reputation_base == 930_000 && !o.api_key_required,
            final(self).oracle_sources.spec_get("API3"@) matches Some(o) && o.name@ == "API3"@
                && o.update_frequency_ms == 1000 && o.reputation_base == 910_000 && o.api_key_required,
            final(self).oracle_sources.spec_get("RedStone"@) matches Some(o) && o.name@ == "RedStone"@
                && o.update_frequency_ms == 2000 && o.reputation_base == 880_000 && !o.api_key_required,
            final(self).token_oracle_mapping.spec_get("ETH"@) matches Some(v) && views(v@) == seq![
                "Chainlink"@,
                "Pyth"@,
                "API3"@,
                "RedStone"@,
            ],
            final(self).token_oracle_mapping.spec_get("BTC"@) matches Some(v) && views(v@) == seq![
                "Chainlink"@,
                "Pyth"@,
                "RedStone"@,
            ],
            final(self).token_oracle_mapping.spec_get("SOL"@) matches Some(v) && views(v@) == seq![
                "Pyth"@,
                "RedStone"@,
            ],
            final(self).token_oracle_mapping.spec_get("MATIC"@) matches Some(v) && views(v@) == seq![
                "Chainlink"@,
                "Pyth"@,
            ],
            final(self).token_oracle_mapping.spec_get("LINK"@) matches Some(v) && views(v@) == seq![
                "Chainlink"@,
                "Pyth"@,
            ],
            forall|q: Seq<char>| !is_default_token(q) ==> #[trigger] final(self).tokens.spec_get(q) == old(self).tokens.spec_get(q),
            forall|q: Seq<char>| !is_default_source(q) ==> #[trigger] final(self).oracle_sources.spec_get(q) == old(self).oracle_sources.spec_get(q),
            forall|q: Seq<char>| !is_default_token(q) ==> #[trigger] final(self).token_oracle_mapping.spec_get(q) == old(self).token_oracle_mapping.spec_get(q),
            old(self).tokens.pairs().len() == 0 ==> final(self).tokens.pairs().len() == 5,
            old(self).oracle_sources.pairs().len() == 0 ==> final(self).oracle_sources.pairs().len() == 4,
            old(self).token_oracle_mapping.pairs().len() == 0 ==> final(self).token_oracle_mapping.pairs().len() == 5,
            final(self).system_config == old(self).system_config,
    {
        register_default_tokens(&mut self.tokens);
        register_default_oracles(&mut self.oracle_sources);
        map_default_tokens(&mut self.token_oracle_mapping);
    }

    /// Registers or replaces a token under its symbol.
    pub fn handle_register_token(&mut self, token: TokenMetadata)
        ensures
            final(self).tokens.spec_get(token.symbol@) == Some(token),
            forall|q: Seq<char>| q != token.symbol@ ==> #[trigger] final(self).tokens.spec_get(q) == old(self).tokens.spec_get(q),
            final(self).oracle_sources == old(self).oracle_sources,
            final(self).token_oracle_mapping == old(self).token_oracle_mapping,
            final(self).system_config == old(self).system_config,
    {
        let symbol = token.symbol.clone();
        self.tokens.insert(symbol, token);
    }

    /// Registers or replaces an oracle source under its name.
    pub fn handle_register_oracle(&mut self, oracle: OracleSourceMetadata)
        ensures
            final(self).oracle_sources.spec_get(oracle.name@) == Some(oracle),
            forall|q: Seq<char>| q != oracle.name@ ==> #[trigger] final(self).oracle_sources.spec_get(q) == old(self).oracle_sources.spec_get(q),
            final(self).tokens == old(self).tokens,
            final(self).token_oracle_mapping == old(self).token_oracle_mapping,
            final(self).system_config == old(self).system_config,
    {
        let name = oracle.name.clone();
        self.oracle_sources.insert(name, oracle);
    }

    /// Sets the sources of a token.
    pub fn handle_map_token_to_oracles(&mut self, token_symbol: String, oracle_sources: Vec<String>)
        ensures
            final(self).token_oracle_mapping.spec_get(token_symbol@) == Some(oracle_sources),
            forall|q: Seq<char>| q != token_symbol@ ==> #[trigger] final(self).token_oracle_mapping.spec_get(q) == old(self).token_oracle_mapping.spec_get(q),
            final(self).tokens == old(self).tokens,
            final(self).oracle_sources == old(self).oracle_sources,
            final(self).system_config == old(self).system_config,
    {
        self.token_oracle_mapping.insert(token_symbol, oracle_sources);
    }

    /// Sets a configuration value, stamped with the time `now`.
    pub fn handle_update_config(&mut self, key: String, value: String, now: u64)
        ensures
            final(self).system_config.spec_get(key@) matches Some(c) && c.key@ == key@ && c.value == value && c.updated_at == now,
            forall|q: Seq<char>| q != key@ ==> #[trigger] final(self).system_config.spec_get(q) == old(self).system_config.spec_get(q),
            final(self).tokens == old(self).tokens,
            final(self).oracle_sources == old(self).oracle_sources,
            final(self).token_oracle_mapping == old(self).token_oracle_mapping,
    {
        let config = SystemConfig { key: key.clone(), value, updated_at: now };
        self.system_config.insert(key, config);
    }

    /// Executes an operation at time `now`.
    pub fn execute_operation(&mut self, operation: Operation, now: u64)
        ensures
            match operation {
                Operation::RegisterToken { token } => final(self).tokens.spec_get(token.symbol@) == Some(token),
                Operation::RegisterOracle { oracle } => final(self).oracle_sources.spec_get(oracle.name@) == Some(oracle),
                Operation::MapTokenToOracles { token_symbol, oracle_sources } => final(self).token_oracle_mapping.spec_get(token_symbol@) == Some(oracle_sources),
                Operation::UpdateConfig { key, value } => final(self).system_config.spec_get(key@) matches Some(c) && c.key@ == key@ && c.value == value && c.updated_at == now,
            },
    {
        match operation {
            Operation::RegisterToken { token } => self.handle_register_token(token),
            Operation::RegisterOracle { oracle } => self.handle_register_oracle(oracle),
            Operation::MapTokenToOracles { token_symbol, oracle_sources } => self.handle_map_token_to_oracles(token_symbol, oracle_sources),
            Operation::UpdateConfig { key, value } => self.handle_update_config(key, value, now),
        }
    }

    /// The token registered under `symbol`.
    pub fn token(&self, symbol: &String) -> (r: Option<TokenMetadata>)
        ensures
            r == self.tokens.spec_get(symbol@),
    {
        match self.tokens.get(symbol) {
            Some(t) => Some(t.clone()),
            None => None,
        }
    }

    /// The active tokens, in registration order.
    pub fn all_tokens(&self) -> (r: Vec<TokenMetadata>)
        ensures
            r@ == active_tokens(self.tokens.pairs()),
    {
        let mut r: Vec<TokenMetadata> = Vec::new();
        let mut i: usize = 0;
        while i < self.tokens.len()
            invariant
                i <= self.tokens.pairs().len(),
                r@ == active_tokens(self.tokens.pairs().subrange(0, i as int)),
            decreases self.tokens.pairs().len() - i,
        {
            let ghost prefix = self.tokens.pairs().subrange(0, i + 1);
            assert(prefix.drop_last() =~= self.tokens.pairs().subrange(0, i as int));
            let t = self.tokens.value_at(i);
            if t.active {
                r.push(t.clone());
            }
            i = i + 1;
        }
        assert(self.tokens.pairs().subrange(0, i as int) =~= self.tokens.pairs());
        r
    }

    /// The oracle source registered under `name`.
    pub fn oracle_source(&self, name: &String) -> (r: Option<OracleSourceMetadata>)
        ensures
            r == self.oracle_sources.spec_get(name@),
    {
        match self.oracle_sources.get(name) {
            Some(o) => Some(o.clone()),
            None => None,
        }
    }

    /// The active oracle sources, in registration order.
    pub fn all_oracle_sources(&self) -> (r: Vec<OracleSourceMetadata>)
        ensures
            r@ == active_sources(self.oracle_sources.pairs()),
    {
        let mut r: Vec<OracleSourceMetadata> = Vec::new();
        let mut i: usize = 0;
        while i < self.oracle_sources.len()
            invariant
                i <= self.oracle_sources.pairs().len(),
                r@ == active_sources(self.oracle_sources.pairs().subrange(0, i as int)),
            decreases self.oracle_sources.pairs().len() - i,
        {
            let ghost prefix = self.oracle_sources.pairs().subrange(0, i + 1);
            assert(prefix.drop_last() =~= self.oracle_sources.pairs().subrange(0, i as int));
            let o = self.oracle_sources.value_at(i);
            if o.active {
                r.push(o.clone());
            }
            i = i + 1;
        }
        assert(self.oracle_sources.pairs().subrange(0, i as int) =~= self.oracle_sources.pairs());
        r
    }

    /// The sources of `token_symbol`, with the first as the primary source (empty when the
    /// list is empty).
    pub fn token_oracles(&self, token_symbol: String) -> (r: Option<TokenOracleMapping>)
        ensures
            match self.token_oracle_mapping.spec_get(token_symbol@) {
                Some(v) => r matches Some(m) && m.token_symbol == token_symbol && m.oracle_sources@
                    == v@ && m.primary_source@ == if v@.len() > 0 {
                    v@[0]@
                } else {
                    Seq::<char>::empty()
                },
                None => r is None,
            },
    {
        match self.token_oracle_mapping.get(&token_symbol) {
            Some(sources) => {
                let primary_source = if sources.len() > 0 {
                    sources[0].clone()
                } else {
                    String::new()
                };
                Some(TokenOracleMapping { token_symbol, oracle_sources: sources.clone(), primary_source })
            },
            None => None,
        }
    }

    /// The configuration entry under `key`.
    pub fn config(&self, key: &String) -> (r: Option<SystemConfig>)
        ensures
            r == self.system_config.spec_get(key@),
    {
        match self.system_config.get(key) {
            Some(c) => Some(c.clone()),
            None => None,
        }
    }

    /// Every configuration entry, in the order the keys were first set.
    pub fn all_configs(&self) -> (r: Vec<SystemConfig>)
        ensures
            r@ == self.system_config.pairs().map_values(|e: (Seq<char>, SystemConfig)| e.1),
    {
        let mut r: Vec<SystemConfig> = Vec::new();
        let mut i: usize = 0;
        while i < self.system_config.len()
            invariant
                i <= self.system_config.pairs().len(),
                r@ == self.system_config.pairs().subrange(0, i as int).map_values(|e: (Seq<char>, SystemConfig)| e.1),
            decreases self.system_config.pairs().len() - i,
        {
            r.push(self.system_config.value_at(i).clone());
            i = i + 1;
            assert(r@ =~= self.system_config.pairs().subrange(0, i as int).map_values(|e: (Seq<char>, SystemConfig)| e.1));
        }
        assert(self.system_config.pairs().subrange(0, i as int) =~= self.system_config.pairs());
        r
    }
}

/// The active tokens among the entries, in order.
pub open spec fn active_tokens(s: Entries<TokenMetadata>) -> Seq<TokenMetadata>
    decreases s.len(),
{
    if s.len() == 0 {
        Seq::empty()
    } else {
        let rest = active_tokens(s.drop_last());
        if s.last().1.active {
            rest.push(s.last().1)
        } else {
            rest
        }
    }
}

/// The active oracle sources among the entries, in order.
pub open spec fn active_sources(s: Entries<OracleSourceMetadata>) -> Seq<OracleSourceMetadata>
    decreases s.len(),
{
    if s.len() == 0 {
        Seq::empty()
    } else {
        let rest = active_sources(s.drop_last());
        if s.last().1.active {
            rest.push(s.last().1)
        } else {
            rest
        }
    }
}

} // verus!
