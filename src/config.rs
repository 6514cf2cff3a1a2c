//! Choosing the chain and RPC endpoint to ingest from.

use vstd::prelude::*;

use crate::chain::{
    ChainIdentity, ARBITRUM_CHAIN_ID, BASE_CHAIN_ID, MAINNET_CHAIN_ID, OPTIMISM_CHAIN_ID,
};

verus! {

/// The endpoint used when no variable names a usable one.
pub const DEFAULT_RPC_URL: &'static str = "http://127.0.0.1:8545";

/// The variable holding the endpoint used when no chain has one of its own.
pub const FALLBACK_RPC_VARIABLE: &'static str = "RPC_URL";

/// The normalized text of a URL, or `None` when the text is not a valid
/// absolute URL.
pub uninterp spec fn url_serialization(s: Seq<char>) -> Option<Seq<char>>;

/// Relies on `url::Url::parse` and on `From<Url> for String`, which hands
/// back the URL's serialization: whether a text parses, and what it
/// normalizes to, depend on the text alone.
#[verifier::external_body]
fn normalize_url(s: &str) -> (r: Option<String>)
    ensures
        r is Some == url_serialization(s@) is Some,
        r matches Some(t) ==> url_serialization(s@) == Some(t@),
{
    url::Url::parse(s).ok().map(String::from)
}

/// What one fetcher needs: the chain and a validated, normalized endpoint.
#[derive(Clone, Debug, PartialEq, Eq)]
pub struct FetcherConfig {
    pub chain: ChainIdentity,
    pub rpc_url: String,
}

/// A chain and the endpoint text configured for it, if any.
#[derive(Clone, Debug)]
pub struct ChainEndpoint {
    pub chain: ChainIdentity,
    pub url: Option<String>,
}

#[derive(Clone, Copy, Debug, PartialEq, Eq, Structural)]
pub enum ConfigError {
    /// The fallback endpoint is not a valid URL.
    InvalidRpcUrl,
}

/// The chains that may have an endpoint variable of their own, with the
/// variable's name, in the order they are tried.
pub fn endpoint_variables() -> (r: Vec<(ChainIdentity, &'static str)>)
    ensures
        r@.len() == 4,
        r@[0].0.id == MAINNET_CHAIN_ID,
        r@[1].0.id == BASE_CHAIN_ID,
        r@[2].0.id == OPTIMISM_CHAIN_ID,
        r@[3].0.id == ARBITRUM_CHAIN_ID,
{
    let mut r: Vec<(ChainIdentity, &'static str)> = Vec::new();
    r.push((ChainIdentity::new(MAINNET_CHAIN_ID), "MAINNET_RPC_URL"));
    r.push((ChainIdentity::new(BASE_CHAIN_ID), "BASE_RPC_URL"));
    r.push((ChainIdentity::new(OPTIMISM_CHAIN_ID), "OPTIMISM_RPC_URL"));
    r.push((ChainIdentity::new(ARBITRUM_CHAIN_ID), "ARBITRUM_RPC_URL"));
    r
}

/// Whether the endpoint text of `e` is present and a valid URL.
pub open spec fn usable(e: ChainEndpoint) -> bool {
    e.url matches Some(u) && url_serialization(u@) is Some
}

/// The first usable endpoint at or after position `i`.
pub open spec fn first_usable_from(c: Seq<ChainEndpoint>, i: int) -> Option<int>
    decreases c.len() - i,
{
    if i < 0 || i >= c.len() {
        None
    } else if usable(c[i]) {
        Some(i)
    } else {
        first_usable_from(c, i + 1)
    }
}

/// The configuration that `select_chain_config` picks, when it picks one.
pub open spec fn selected_config(c: Seq<ChainEndpoint>, fallback: Seq<char>) -> Option<(u64, Seq<char>)> {
    match first_usable_from(c, 0) {
        Some(i) => Some((c[i].chain.id, url_serialization(c[i].url->0@)->0)),
        None => match url_serialization(fallback) {
            Some(t) => Some((MAINNET_CHAIN_ID, t)),
            None => None,
        },
    }
}

/// Picks the first chain whose endpoint text is a valid URL. When there is
/// none, mainnet with the fallback endpoint (`DEFAULT_RPC_URL` when none is
/// given), which must then be a valid URL.
pub fn select_chain_config(candidates: &Vec<ChainEndpoint>, fallback: Option<String>) -> (r: Result<
    FetcherConfig,
    ConfigError,
>)
    ensures
        ({
            let f = match fallback {
                Some(s) => s@,
                None => DEFAULT_RPC_URL@,
            };
            match selected_config(candidates@, f) {
                Some((id, url)) => r matches Ok(cfg) && cfg.chain.id == id && cfg.rpc_url@ == url,
                None => r == Err::<FetcherConfig, ConfigError>(ConfigError::InvalidRpcUrl),
            }
        }),
{
    let mut i: usize = 0;
    while i < candidates.len()
        invariant
            0 <= i <= candidates@.len(),
            first_usable_from(candidates@, 0) == first_usable_from(candidates@, i as int),
        decreases candidates@.len() - i,
    {
        let candidate = &candidates[i];
        match &candidate.url {
            Some(raw) => match normalize_url(raw.as_str()) {
                Some(url) => {
                    return Ok(FetcherConfig { chain: candidate.chain, rpc_url: url });
                },
                None => {},
            },
            None => {},
        }
        i = i + 1;
    }
    let parsed = match &fallback {
        Some(raw) => normalize_url(raw.as_str()),
        None => normalize_url(DEFAULT_RPC_URL),
    };
    match parsed {
        Some(url) => Ok(FetcherConfig { chain: ChainIdentity::mainnet(), rpc_url: url }),
        None => Err(ConfigError::InvalidRpcUrl),
    }
}

} // verus!
