//! The epoch-scoped reward distribution program: a per-program config, a
//! per-(validator, epoch) reward collection account, the commission
//! splitter, and the Merkle claim engine with per-claimant claim status
//! accounts.

pub mod instructions;
pub mod sdk;
pub mod state;
