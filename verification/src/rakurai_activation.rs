//! The activation program: the two-party approval state machine with a
//! hash commitment that the block builder must supply when proposing or
//! accepting enablement.

pub mod instructions;
pub mod sdk;
pub mod state;
