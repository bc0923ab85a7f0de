//! The engine's error taxonomy. Every error aborts the whole operation with
//! no partial effect: each public operation either commits every read,
//! transfer and write it performs, or none of them.

use vstd::prelude::*;
use crate::ledger::TransferError;

verus! {

/// Everything a settlement-engine operation can reject.
#[derive(Clone, Copy, PartialEq, Eq, Structural, Debug)]
pub enum AuctionError {
    /// The resource name is empty or exceeds the maximum length.
    ResourceNameTooLong,
    /// The default resource value is empty or exceeds the maximum length.
    ResourceValueTooLong,
    /// The round duration must be greater than zero.
    AuctionDurationTooShort,
    /// The bid does not exceed the current leading amount.
    BidTooLow,
    /// The resource value of a bid is empty or exceeds the maximum length.
    BidResourceValueEmptyOrTooLong,
    /// The round has already ended.
    AuctionEnded,
    /// The round is not the active one, or bidding was attempted after its
    /// deadline.
    AuctionNotActiveOrNotEnded,
    /// The archived winner data is inconsistent.
    InvalidWinner,
    /// The round's end time is not representable as a timestamp.
    TimestampError,
    /// A refund is owed but no valid destination account was supplied.
    MissingOrInvalidPreviousBidderTokenAccount,
    /// The supplied refund destination is not owned by the displaced leader.
    InvalidPreviousBidderTokenAccountOwner,
    /// An account does not hold the configured bidding asset.
    InvalidBiddingMint,
    /// Finalization was attempted before the round's duration elapsed.
    AuctionNotYetEnded,
    /// The caller is not the configured authority.
    InvalidAuthority,
    /// A counter or a balance would exceed the representable maximum.
    ArithmeticOverflow,
    /// The funding source holds less than the bid amount.
    InsufficientFunds,
    /// The transfer authorizer does not control the funding source.
    UnauthorizedTransfer,
}

/// How a substrate transfer failure surfaces at the engine boundary.
pub open spec fn spec_auction_error_of_transfer(e: TransferError) -> AuctionError {
    match e {
        TransferError::AssetMismatch => AuctionError::InvalidBiddingMint,
        TransferError::Unauthorized => AuctionError::UnauthorizedTransfer,
        TransferError::InsufficientFunds => AuctionError::InsufficientFunds,
        TransferError::BalanceOverflow => AuctionError::ArithmeticOverflow,
    }
}

} // verus!
