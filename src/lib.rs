//! A single-round slot machine: players stake a fixed amount, an oracle
//! supplies randomness, and settlement decides whether the player is paid.

pub mod principal;
pub mod ledger;
pub mod game;
pub mod laws;
