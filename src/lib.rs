//! Verified core of two artist contracts: one issues a non-fungible token
//! collection, the other a fungible token, each by sending messages to the
//! host chain's asset module.
//!
//! The library holds the decisions of both contracts: how the identifier of a
//! collection or token is derived from the artist's name, the single-owner
//! gate in front of every mint and burn, the one outbound message each call
//! emits, and the loop that drains a paginated listing of the asset module.
//! Storage, the host's querier and serialization stay with the caller, which
//! hands plain values in and takes plain values back.

pub mod error;
pub mod ident;
pub mod response;
pub mod state;
pub mod paging;
pub mod artist_collection;
pub mod artist_ft;
