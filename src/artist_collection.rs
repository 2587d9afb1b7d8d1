//! The contract that issues an artist's non-fungible token collection.
pub mod contract;
pub mod msg;
