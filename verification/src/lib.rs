//! Commission-governance and reward-distribution account logic for the
//! Rakurai programs: a two-party approval state machine that gates automated
//! commission management, and a Merkle-root reward distribution engine that
//! splits collected rewards and pays staker shares against Merkle proofs.
//!
//! Account state lives in plain data structures; the surrounding runtime
//! (instruction dispatch, account loading, lamport custody) hands each
//! operation the account values, the current epoch and slot, and the native
//! balances involved, and persists whatever a successful operation returns.
//! Every operation here is all-or-nothing: on an error no argument is
//! mutated.

pub mod approval;
pub mod block_reward_distribution;
pub mod keys;
pub mod merkle_proof;
pub mod multisig;
pub mod rakurai_activation;
pub mod reward_distribution;
pub mod solana;

pub use keys::AccountKey;
