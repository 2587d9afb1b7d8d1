//! The contract that issues an artist's fungible token.
pub mod contract;
pub mod msg;
