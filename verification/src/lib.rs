//! A single-winner, ascending-price auction settlement engine with integrated
//! escrow custody, automatic refund of displaced bidders, and an immutable
//! archive of completed rounds.
//!
//! The engine runs one round at a time: a round opens, strictly increasing
//! bids are accepted (each new leader's funds are swapped atomically with a
//! refund of the previous leader), and once the round's duration has elapsed
//! the round is finalized: proceeds go to the configured authority, the
//! outcome is archived, and the next round opens.
//!
//! The ledger substrate (keyed persistent records, an authorization-gated
//! transfer primitive, and a trusted clock) is modelled by plain records:
//! accounts are [`ledger::TokenAccount`] values, transfers go through
//! [`ledger::transfer`], and every operation receives the substrate's current
//! time as an argument.

pub mod contexts;
pub mod engine;
pub mod errors;
pub mod events;
pub mod laws;
pub mod ledger;
pub mod records;
