//! The multisig program: the two-party approval state machine over a
//! per-validator account, without the hash commitment.

pub mod instructions;
pub mod sdk;
pub mod state;
