//! Messages of the token contract: what it receives, and what it sends on to
//! the asset module.
use vstd::prelude::*;

verus! {

/// The message the contract is instantiated with: the token is issued at
/// once, under `subunit`, with `symbol`.
#[derive(Debug, Clone, PartialEq, Eq)]
pub struct MsgDto {
    pub symbol: String,
    pub subunit: String,
}

/// The calls that change something.
#[derive(Debug, Clone, PartialEq, Eq)]
pub enum ExecuteMsg {
    /// Mint `amount` of the token.
    Mint { amount: u128 },
    /// Create the token of `artist`.
    InstantiateArtistToken { artist: String },
}

/// The read-only queries, each forwarded to the asset module.
#[derive(Debug, Clone, PartialEq, Eq)]
pub enum QueryMsg {
    Params,
    Token,
    Tokens { issuer: String },
    Balance { account: String },
}

/// A message to the asset module.
#[derive(Debug, Clone, PartialEq, Eq)]
pub enum AssetMsg {
    /// Issue a token; `features` are the asset module's feature codes.
    Issue {
        symbol: String,
        subunit: String,
        precision: u32,
        initial_amount: u128,
        features: Vec<u32>,
        burn_rate: String,
        send_commission_rate: String,
    },
    Mint { denom: String, amount: u128 },
}

/// A request to the asset module's query interface. The listing carries the
/// cursor of the page it asks for.
#[derive(Debug, Clone, PartialEq, Eq)]
pub enum AssetQuery {
    Params,
    Token { denom: String },
    Tokens { issuer: String, page_key: Option<String> },
    Balance { account: String, denom: String },
}

impl QueryMsg {
    /// Whether the answer to this query comes in pages.
    pub fn is_listing(&self) -> (r: bool)
        ensures
            r <==> self is Tokens,
    {
        match self {
            QueryMsg::Tokens { .. } => true,
            _ => false,
        }
    }
}

} // verus!
