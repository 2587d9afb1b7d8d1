//! Messages of the collection contract: what it receives, and what it sends
//! on to the asset module.
use vstd::prelude::*;

verus! {

/// The message the contract is instantiated with.
#[derive(Debug, Clone, PartialEq, Eq)]
pub struct MsgDto {
    pub artist_name: String,
    pub symbol: String,
}

/// The calls that change something.
#[derive(Debug, Clone, PartialEq, Eq)]
pub enum ExecuteMsg {
    /// Mint the token `id` into the collection.
    Mint { id: String, uri: Option<String>, uri_hash: Option<String>, data: Option<Vec<u8>> },
    /// Burn the token `id` of the collection.
    Burn { id: String },
    /// Create the collection of `artist`.
    InstantiateCollection { artist: String },
}

/// The read-only queries, each forwarded to the asset module.
#[derive(Debug, Clone, PartialEq, Eq)]
pub enum QueryMsg {
    Param,
    Class,
    Classes { issuer: String },
    Balance { owner: String },
    Owner { id: String },
    Supply,
    Nft { id: String },
    Nfts { owner: Option<String> },
    ClassNft,
    ClassesNft,
    BurnNft { nft_id: String },
    BurntNftsInClass,
}

/// A message to the asset module.
#[derive(Debug, Clone, PartialEq, Eq)]
pub enum AssetMsg {
    /// Issue a class named `name` with `symbol`, and no further metadata.
    IssueClass { name: String, symbol: String },
    Mint {
        class_id: String,
        id: String,
        uri: Option<String>,
        uri_hash: Option<String>,
        data: Option<Vec<u8>>,
    },
    Burn { class_id: String, id: String },
}

/// A request to the asset module's query interface. The listing requests
/// carry the cursor of the page they ask for.
#[derive(Debug, Clone, PartialEq, Eq)]
pub enum AssetQuery {
    /// A class of the asset module.
    Class { id: String },
    /// The classes of an issuer.
    Classes { issuer: String, page_key: Option<String> },
    BurntNft { class_id: String, nft_id: String },
    BurntNftsInClass { class_id: String, page_key: Option<String> },
    /// How many tokens of the class `owner` holds.
    NftBalance { class_id: String, owner: String },
    NftOwner { class_id: String, id: String },
    NftSupply { class_id: String },
    Nft { class_id: String, id: String },
    /// The tokens of a class, or those of an owner.
    Nfts { class_id: Option<String>, owner: Option<String>, page_key: Option<String> },
    /// A class as the nft module describes it.
    NftClass { class_id: String },
    NftClasses { page_key: Option<String> },
}

impl QueryMsg {
    /// Whether the answer to this query comes in pages.
    pub fn is_listing(&self) -> (r: bool)
        ensures
            r <==> (self is Classes || self is Nfts || self is ClassesNft
                || self is BurntNftsInClass),
    {
        match self {
            QueryMsg::Classes { .. } | QueryMsg::Nfts { .. } | QueryMsg::ClassesNft
            | QueryMsg::BurntNftsInClass => true,
            _ => false,
        }
    }
}

} // verus!
