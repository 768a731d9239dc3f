//! Verified core of an NFT marketplace: the registry of token listings and
//! the client-side rules for talking to a CIS-2 token contract.

pub mod chain;
pub mod cis2_client;
pub mod cis2_types;
pub mod cis2_wire;
pub mod errors;
pub mod history;
pub mod state;
