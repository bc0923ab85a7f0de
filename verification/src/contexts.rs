//! Per-operation bundles of the caller-supplied principals and accounts.
//! Each operation of the engine receives exactly the records it may read or
//! move funds between; the substrate is assumed to have authenticated the
//! signing principals before they reach the engine.

use vstd::prelude::*;
use crate::ledger::{Principal, TokenAccount};

verus! {

/// Caller-supplied records for `initialize_auction`.
#[derive(Clone, Copy, PartialEq, Eq, Structural, Debug)]
pub struct InitializeAuction {
    /// The administrative principal of the new auction.
    pub authority: Principal,
    /// The fungible asset accepted as bids.
    pub bidding_token_mint: u64,
    /// The credential under which the engine will control the escrow vault.
    pub vault_authorization_handle: Principal,
}

/// Caller-supplied records for `place_bid`.
#[derive(Clone, Copy, PartialEq, Eq, Structural, Debug)]
pub struct PlaceBid {
    /// The bidding principal; authenticated by the substrate.
    pub bidder_authority: Principal,
    /// The account the bid amount is taken from.
    pub bidder_token_account: TokenAccount,
    /// The destination for refunding the displaced leader. The first bid of
    /// a round owes no refund and may leave it out; when a refund is owed, a
    /// missing or mismatched account rejects the bid.
    pub previous_bidder_token_account: Option<TokenAccount>,
}

/// Caller-supplied records for `finalize_auction`.
#[derive(Clone, Copy, PartialEq, Eq, Structural, Debug)]
pub struct FinalizeAuction {
    /// The caller; must equal the configured authority.
    pub authority: Principal,
    /// The destination for the winning proceeds.
    pub authority_token_account: TokenAccount,
}

/// Caller-supplied records for `set_bidding_token`.
#[derive(Clone, Copy, PartialEq, Eq, Structural, Debug)]
pub struct SetBiddingToken {
    /// The caller; must equal the configured authority.
    pub authority: Principal,
}

/// Caller-supplied records for `set_auction_duration`.
#[derive(Clone, Copy, PartialEq, Eq, Structural, Debug)]
pub struct SetAuctionDuration {
    /// The caller; must equal the configured authority.
    pub authority: Principal,
}

/// Caller-supplied records for `set_default_resource_value`.
#[derive(Clone, Copy, PartialEq, Eq, Structural, Debug)]
pub struct SetDefaultResourceValue {
    /// The caller; must equal the configured authority.
    pub authority: Principal,
}

/// Caller-supplied records for `set_resource_name`.
#[derive(Clone, Copy, PartialEq, Eq, Structural, Debug)]
pub struct SetResourceName {
    /// The caller; must equal the configured authority.
    pub authority: Principal,
}

} // verus!
