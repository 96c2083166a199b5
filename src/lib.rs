//! A coin-flip wager engine: a house treasury, per-wager escrow custody and a
//! one-shot settlement, over an in-memory ledger of token accounts.
pub mod table;
pub mod ids;
pub mod ledger;
pub mod state;
pub mod coin_flip;
pub mod laws;
