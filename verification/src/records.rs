//! The engine's persistent records: the auction-wide configuration, the
//! active round's state, and the immutable archive entry written for each
//! completed round.

use vstd::prelude::*;
use crate::ledger::{Principal, NO_PRINCIPAL};

verus! {

/// Maximum length, in characters, of the configured resource name.
pub const MAX_RESOURCE_NAME_LENGTH: usize = 200;

/// Maximum length, in characters, of a resource value (a bid's, or the
/// configured default).
pub const MAX_RESOURCE_VALUE_LENGTH: usize = 200;

/// The singleton auction-wide configuration, created once at initialization
/// and mutated only by administrative operations and by finalization's
/// counter updates.
pub struct AuctionConfig {
    /// The administrative principal; it alone may reconfigure the auction and
    /// receive winning proceeds.
    pub authority: Principal,
    /// The fungible asset accepted as bids.
    pub bidding_token_mint: u64,
    /// Name of the auctioned resource; 1 to 200 characters.
    pub resource_name: String,
    /// Resource value archived for a round that ends without bids; 1 to 200
    /// characters.
    pub default_resource_value: String,
    /// Length of each round, in seconds; always positive.
    pub auction_duration: u64,
    /// Id of the currently active round; starts at 1 and increases by exactly
    /// one per finalization.
    pub current_auction_id: u64,
    /// Number of finalized rounds; always `current_auction_id - 1`.
    pub total_auctions_held: u64,
    /// The opaque credential with which the engine, and nobody else,
    /// authorizes transfers out of the escrow vault.
    pub vault_authorization_handle: Principal,
}

impl AuctionConfig {
    /// Validity of the configuration record.
    pub open spec fn wf(self) -> bool {
        &&& 1 <= self.resource_name@.len() <= MAX_RESOURCE_NAME_LENGTH
        &&& 1 <= self.default_resource_value@.len() <= MAX_RESOURCE_VALUE_LENGTH
        &&& self.auction_duration > 0
        &&& self.current_auction_id == self.total_auctions_held + 1
    }
}

/// The mutable record of the currently active round. Created at
/// initialization (round 1) or by the finalization of the previous round;
/// replaced when its own round finalizes.
pub struct AuctionState {
    /// This round's id; equals the configuration's `current_auction_id` while
    /// the round is active.
    pub id: u64,
    /// When the round opened, in seconds.
    pub start_timestamp: i64,
    /// The current leader, or `NO_PRINCIPAL` while no bid has been accepted.
    pub highest_bidder: Principal,
    /// The leading amount; 0 means no bid yet.
    pub highest_bid_amount: u64,
    /// The leading bid's resource value; empty until the first bid.
    pub highest_bid_resource_value: String,
}

impl AuctionState {
    /// Validity of the round record: a leader and a positive leading amount
    /// come and go together, and so does a non-empty, bounded resource value.
    pub open spec fn wf(self) -> bool {
        &&& (self.highest_bidder == NO_PRINCIPAL) <==> (self.highest_bid_amount == 0)
        &&& if self.highest_bid_amount == 0 {
            self.highest_bid_resource_value@.len() == 0
        } else {
            1 <= self.highest_bid_resource_value@.len() <= MAX_RESOURCE_VALUE_LENGTH
        }
    }

    /// Whether the round has an accepted bid whose funds sit in escrow.
    pub open spec fn has_leader(self) -> bool {
        self.highest_bidder != NO_PRINCIPAL && self.highest_bid_amount > 0
    }

    /// The instant, as an unbounded integer, at which the round ends given
    /// the configured duration.
    pub open spec fn end_time(self, duration: u64) -> int {
        self.start_timestamp + duration
    }

    /// A freshly opened round: no leader, nothing in escrow.
    pub fn open_round(id: u64, now: i64) -> (s: AuctionState)
        ensures
            s.id == id,
            s.start_timestamp == now,
            s.highest_bidder == NO_PRINCIPAL,
            s.highest_bid_amount == 0,
            s.highest_bid_resource_value@.len() == 0,
            s.wf(),
    {
        AuctionState {
            id,
            start_timestamp: now,
            highest_bidder: NO_PRINCIPAL,
            highest_bid_amount: 0,
            highest_bid_resource_value: String::new(),
        }
    }
}

/// The immutable record of one completed round, keyed by its round id. It is
/// written once by finalization and never mutated afterward.
pub struct HistoricalAuctionData {
    /// Id of the completed round.
    pub auction_id: u64,
    /// The winning bidder, or `NO_PRINCIPAL` if the round ended without bids.
    pub winner: Principal,
    /// The winning amount; 0 if the round ended without bids.
    pub winning_amount: u64,
    /// The winning bid's resource value, or the configured default if the
    /// round ended without bids.
    pub winning_resource_value: String,
    /// When the round was finalized, in seconds.
    pub end_timestamp: i64,
}

impl HistoricalAuctionData {
    /// Validity of an archive entry.
    pub open spec fn wf(self) -> bool {
        &&& (self.winner == NO_PRINCIPAL) <==> (self.winning_amount == 0)
        &&& 1 <= self.winning_resource_value@.len() <= MAX_RESOURCE_VALUE_LENGTH
    }
}

} // verus!
