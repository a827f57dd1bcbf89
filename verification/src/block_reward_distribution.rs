//! The block reward distribution program: the sibling variant of the
//! reward distribution engine, with a per-(validator, epoch) distribution
//! account whose unclaimed funds go to a designated expired-funds account
//! on closure.

pub mod instructions;
pub mod sdk;
pub mod state;
