//! Notifications returned by the engine's operations, in the order they
//! occur within a round: a refund of the displaced leader, an accepted bid,
//! and the closing of a round.

use vstd::prelude::*;
use crate::ledger::Principal;

verus! {

/// A bid was accepted and its funds taken into escrow.
#[derive(Debug)]
pub struct BidPlaced {
    pub auction_id: u64,
    pub bidder: Principal,
    pub amount: u64,
    pub resource_value: String,
}

/// A displaced leader was refunded their full contributed amount.
#[derive(Clone, Copy, PartialEq, Eq, Structural, Debug)]
pub struct BidRefunded {
    pub auction_id: u64,
    /// The bidder being refunded.
    pub bidder: Principal,
    pub amount: u64,
}

/// A round was finalized and archived.
#[derive(Debug)]
pub struct AuctionEndedEvent {
    pub auction_id: u64,
    pub winner: Principal,
    pub amount: u64,
    pub resource_value: String,
    pub end_timestamp: i64,
}

} // verus!
