//! A per-player resource ledger for a chest-and-key game economy.
//!
//! Every operation is a function of the player's record and of the values
//! the host supplies: the current time, a random seed, the reply to a balance
//! query. On a well-formed record each one either succeeds and changes the
//! record as its rule says, or fails with a [`error::GameError`] and changes
//! nothing.
//!
//! - [`config`]: the tuning constants.
//! - [`rewards`]: the reward tables and how a seed picks from them.
//! - [`player`]: the player record and its rules.
//! - [`ledger`]: the records of all players, by identity.
//! - [`settlement`]: the two phases of a gift swap and the balance query
//!   between them.
//! - [`contract`]: the entry points.
//! - [`text`]: what a player is told.
//! - [`laws`]: what holds of the rules whatever the players do.

pub mod config;
pub mod contract;
pub mod error;
pub mod laws;
pub mod ledger;
pub mod player;
pub mod rewards;
pub mod settlement;
pub mod text;
