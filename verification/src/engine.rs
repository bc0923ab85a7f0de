//! The settlement engine: round initialization, bid placement with atomic
//! refund of the displaced leader, deadline-gated finalization into the
//! archive, and authority-gated configuration updates.
//!
//! Every operation is all-or-nothing: it validates everything it is about to
//! do against the records as they stand, rejects with a specific error before
//! any record changes, and only then performs its transfers and writes. This
//! models the substrate's transactional rollback.

use vstd::prelude::*;
use vstd::string::StrSliceExecFns;
use crate::contexts::{
    FinalizeAuction, InitializeAuction, PlaceBid, SetAuctionDuration, SetBiddingToken,
    SetDefaultResourceValue, SetResourceName,
};
use crate::errors::{spec_auction_error_of_transfer, AuctionError};
use crate::events::{AuctionEndedEvent, BidPlaced, BidRefunded};
use crate::ledger::{
    credited, debited, transfer, transfer_rejection, Principal, TokenAccount, NO_ASSET,
    NO_PRINCIPAL,
};
use crate::records::{
    AuctionConfig, AuctionState, HistoricalAuctionData, MAX_RESOURCE_NAME_LENGTH,
    MAX_RESOURCE_VALUE_LENGTH,
};

verus! {

/// The engine's records: the singleton configuration, the active round, the
/// escrow vault, and the archive of completed rounds, indexed by round id
/// (the entry for round `i` sits at position `i - 1`).
pub struct SettlementEngine {
    pub auction_config: AuctionConfig,
    pub auction_state: AuctionState,
    /// The escrow vault: holds exactly the leading bid's funds, and only the
    /// engine's own credential may authorize transfers out of it.
    pub program_token_account: TokenAccount,
    pub historical_auctions: Vec<HistoricalAuctionData>,
}

impl SettlementEngine {
    /// The global invariant of the engine, established by initialization and
    /// preserved by every operation:
    /// the active round's id equals the configuration's current round id;
    /// the vault is controlled by the engine's credential and holds exactly
    /// the leading amount; and the archive entries form a gapless sequence of
    /// well-formed records for rounds 1 through `total_auctions_held`.
    pub open spec fn wf(self) -> bool {
        &&& self.auction_config.wf()
        &&& self.auction_state.wf()
        &&& self.auction_state.id == self.auction_config.current_auction_id
        &&& self.program_token_account.owner == self.auction_config.vault_authorization_handle
        &&& self.program_token_account.balance == self.auction_state.highest_bid_amount
        &&& self.historical_auctions@.len() == self.auction_config.total_auctions_held
        &&& forall|i: int|
            0 <= i < self.historical_auctions@.len() ==> (#[trigger] self.historical_auctions@[i]).auction_id == i + 1
        &&& forall|i: int|
            0 <= i < self.historical_auctions@.len() ==> (#[trigger] self.historical_auctions@[i]).wf()
    }
}

/// One accepted bid within a round: the round and its start stand, the
/// leading amount strictly increases.
pub open spec fn accepted_bid_step(pre: AuctionState, post: AuctionState) -> bool {
    &&& post.id == pre.id
    &&& post.start_timestamp == pre.start_timestamp
    &&& post.highest_bid_amount > pre.highest_bid_amount
}

/// What every operation guarantees across a call, whatever its outcome: the
/// round counter never decreases, and the archive is only appended to —
/// entries once written never change.
pub open spec fn engine_evolves(pre: SettlementEngine, post: SettlementEngine) -> bool {
    &&& pre.auction_config.current_auction_id <= post.auction_config.current_auction_id
    &&& archive_extends(pre.historical_auctions@, post.historical_auctions@)
}

/// `post` carries every archive entry of `pre`, unchanged and in place.
pub open spec fn archive_extends(
    pre: Seq<HistoricalAuctionData>,
    post: Seq<HistoricalAuctionData>,
) -> bool {
    &&& pre.len() <= post.len()
    &&& forall|i: int| 0 <= i < pre.len() ==> post[i] == pre[i]
}

/// Why `initialize_auction` rejects its inputs, or `None` if it accepts them.
pub open spec fn initialize_rejection(
    resource_name: Seq<char>,
    default_resource_value: Seq<char>,
    auction_duration: u64,
) -> Option<AuctionError> {
    if resource_name.len() < 1 || resource_name.len() > MAX_RESOURCE_NAME_LENGTH {
        Some(AuctionError::ResourceNameTooLong)
    } else if default_resource_value.len() < 1 || default_resource_value.len()
        > MAX_RESOURCE_VALUE_LENGTH {
        Some(AuctionError::ResourceValueTooLong)
    } else if auction_duration == 0 {
        Some(AuctionError::AuctionDurationTooShort)
    } else {
        None
    }
}

/// The engine state `initialize_auction` creates when it accepts: round 1
/// open as of `now`, nothing in escrow, an empty archive.
pub open spec fn fresh_engine(
    e: SettlementEngine,
    ctx: InitializeAuction,
    resource_name: Seq<char>,
    default_resource_value: Seq<char>,
    auction_duration: u64,
    now: i64,
) -> bool {
    &&& e.auction_config.authority == ctx.authority
    &&& e.auction_config.bidding_token_mint == ctx.bidding_token_mint
    &&& e.auction_config.vault_authorization_handle == ctx.vault_authorization_handle
    &&& e.auction_config.resource_name@ == resource_name
    &&& e.auction_config.default_resource_value@ == default_resource_value
    &&& e.auction_config.auction_duration == auction_duration
    &&& e.auction_config.current_auction_id == 1
    &&& e.auction_config.total_auctions_held == 0
    &&& e.auction_state.id == 1
    &&& e.auction_state.start_timestamp == now
    &&& e.auction_state.highest_bidder == NO_PRINCIPAL
    &&& e.auction_state.highest_bid_amount == 0
    &&& e.auction_state.highest_bid_resource_value@.len() == 0
    &&& e.program_token_account.owner == ctx.vault_authorization_handle
    &&& e.program_token_account.mint == ctx.bidding_token_mint
    &&& e.program_token_account.balance == 0
    &&& e.historical_auctions@.len() == 0
}

/// Creates the auction: the configuration, the escrow vault bound to the
/// bidding asset and controlled by the engine's credential, and round 1,
/// opened at `now`. Rejects an empty or over-long resource name or default
/// value and a zero duration, exactly as `initialize_rejection` says.
pub fn initialize_auction(
    ctx: &InitializeAuction,
    resource_name: String,
    default_resource_value: String,
    auction_duration: u64,
    now: i64,
) -> (r: Result<SettlementEngine, AuctionError>)
    ensures
        match initialize_rejection(resource_name@, default_resource_value@, auction_duration) {
            Some(e) => r is Err && r->Err_0 == e,
            None => {
                &&& r is Ok
                &&& r->Ok_0.wf()
                &&& fresh_engine(
                    r->Ok_0,
                    *ctx,
                    resource_name@,
                    default_resource_value@,
                    auction_duration,
                    now,
                )
            },
        },
{
    let name_len = resource_name.as_str().unicode_len();
    if name_len < 1 || name_len > MAX_RESOURCE_NAME_LENGTH {
        return Err(AuctionError::ResourceNameTooLong);
    }
    let value_len = default_resource_value.as_str().unicode_len();
    if value_len < 1 || value_len > MAX_RESOURCE_VALUE_LENGTH {
        return Err(AuctionError::ResourceValueTooLong);
    }
    if auction_duration == 0 {
        return Err(AuctionError::AuctionDurationTooShort);
    }
    let auction_config = AuctionConfig {
        authority: ctx.authority,
        bidding_token_mint: ctx.bidding_token_mint,
        resource_name,
        default_resource_value,
        auction_duration,
        current_auction_id: 1,
        total_auctions_held: 0,
        vault_authorization_handle: ctx.vault_authorization_handle,
    };
    let auction_state = AuctionState::open_round(1, now);
    let program_token_account = TokenAccount {
        owner: ctx.vault_authorization_handle,
        mint: ctx.bidding_token_mint,
        balance: 0,
    };
    Ok(SettlementEngine {
        auction_config,
        auction_state,
        program_token_account,
        historical_auctions: Vec::new(),
    })
}

/// The end of the active round, `start + duration`, or `None` when that
/// instant exceeds the largest representable timestamp.
fn round_end_timestamp(start: i64, duration: u64) -> (r: Option<i64>)
    ensures
        r == if start + duration <= i64::MAX {
            Some((start + duration) as i64)
        } else {
            None::<i64>
        },
{
    let sum: i128 = start as i128 + duration as i128;
    if sum <= i64::MAX as i128 {
        Some(sum as i64)
    } else {
        None
    }
}

/// Why the intake transfer of a bid would be refused by the substrate.
pub open spec fn intake_rejection(
    source: TokenAccount,
    vault: TokenAccount,
    amount: u64,
    bidder: Principal,
) -> Option<AuctionError> {
    match transfer_rejection(source, vault, amount, bidder) {
        Some(te) => Some(spec_auction_error_of_transfer(te)),
        None => None,
    }
}

/// Why `place_bid` rejects, or `None` if it accepts. The checks run in this
/// order: the bid's resource value, the amount against the current leader,
/// the round's deadline, then — when a leader is displaced — the refund
/// destination's identity and the refund transfer, and last the intake
/// transfer of the bid itself.
pub open spec fn place_bid_rejection(
    engine: SettlementEngine,
    ctx: PlaceBid,
    amount: u64,
    resource_value: Seq<char>,
    now: i64,
) -> Option<AuctionError> {
    let cfg = engine.auction_config;
    let st = engine.auction_state;
    let vault = engine.program_token_account;
    if resource_value.len() < 1 || resource_value.len() > MAX_RESOURCE_VALUE_LENGTH {
        Some(AuctionError::BidResourceValueEmptyOrTooLong)
    } else if amount <= st.highest_bid_amount {
        Some(AuctionError::BidTooLow)
    } else if st.end_time(cfg.auction_duration) > i64::MAX {
        Some(AuctionError::TimestampError)
    } else if now >= st.end_time(cfg.auction_duration) {
        Some(AuctionError::AuctionNotActiveOrNotEnded)
    } else if st.has_leader() {
        match ctx.previous_bidder_token_account {
            None => Some(AuctionError::MissingOrInvalidPreviousBidderTokenAccount),
            Some(prev) => {
                if prev.mint != cfg.bidding_token_mint {
                    Some(AuctionError::InvalidBiddingMint)
                } else if prev.owner != st.highest_bidder {
                    Some(AuctionError::InvalidPreviousBidderTokenAccountOwner)
                } else {
                    match transfer_rejection(
                        vault,
                        prev,
                        st.highest_bid_amount,
                        cfg.vault_authorization_handle,
                    ) {
                        Some(te) => Some(spec_auction_error_of_transfer(te)),
                        None => intake_rejection(
                            ctx.bidder_token_account,
                            debited(vault, st.highest_bid_amount),
                            amount,
                            ctx.bidder_authority,
                        ),
                    }
                }
            },
        }
    } else {
        intake_rejection(ctx.bidder_token_account, vault, amount, ctx.bidder_authority)
    }
}

/// The refund notification an accepted bid produces: exactly one, for the
/// displaced leader and their full contributed amount, or none on a round's
/// first bid.
pub open spec fn refund_event_of(st: AuctionState) -> Option<BidRefunded> {
    if st.has_leader() {
        Some(
            BidRefunded {
                auction_id: st.id,
                bidder: st.highest_bidder,
                amount: st.highest_bid_amount,
            },
        )
    } else {
        None
    }
}

/// What an accepted bid does to the records: the new bidder leads at the new
/// amount, the vault holds exactly that amount, the bid was taken from the
/// bidder's account, and the displaced leader — if any — was refunded in full
/// to the supplied destination. Configuration and archive stand untouched.
pub open spec fn bid_accepted(
    pre: SettlementEngine,
    post: SettlementEngine,
    pre_ctx: PlaceBid,
    post_ctx: PlaceBid,
    amount: u64,
    resource_value: Seq<char>,
) -> bool {
    let st = pre.auction_state;
    &&& post.auction_config == pre.auction_config
    &&& post.historical_auctions == pre.historical_auctions
    &&& post.auction_state.id == st.id
    &&& post.auction_state.start_timestamp == st.start_timestamp
    &&& post.auction_state.highest_bidder == pre_ctx.bidder_authority
    &&& post.auction_state.highest_bid_amount == amount
    &&& post.auction_state.highest_bid_resource_value@ == resource_value
    &&& post.program_token_account.owner == pre.program_token_account.owner
    &&& post.program_token_account.mint == pre.program_token_account.mint
    &&& post.program_token_account.balance == amount
    &&& post_ctx.bidder_authority == pre_ctx.bidder_authority
    &&& post_ctx.bidder_token_account == debited(pre_ctx.bidder_token_account, amount)
    &&& if st.has_leader() {
        match pre_ctx.previous_bidder_token_account {
            Some(prev) => post_ctx.previous_bidder_token_account == Some(
                credited(prev, st.highest_bid_amount),
            ),
            None => false,
        }
    } else {
        post_ctx.previous_bidder_token_account == pre_ctx.previous_bidder_token_account
    }
}

/// Places a bid of `amount` with `resource_value` on the active round, at
/// substrate time `now`. A bid is accepted exactly when
/// `place_bid_rejection` says so; it then refunds the displaced leader in
/// full (to the supplied destination, atomically with the intake), moves the
/// bid into escrow, and records the new leader. A rejected bid changes
/// nothing. Returns the refund notification, if one was owed, and the
/// acceptance notification.
pub fn place_bid(
    engine: &mut SettlementEngine,
    ctx: &mut PlaceBid,
    amount: u64,
    resource_value: String,
    now: i64,
) -> (r: Result<(Option<BidRefunded>, BidPlaced), AuctionError>)
    requires
        old(engine).wf(),
        old(ctx).bidder_authority != NO_PRINCIPAL,
    ensures
        engine_evolves(*old(engine), *final(engine)),
        match place_bid_rejection(*old(engine), *old(ctx), amount, resource_value@, now) {
            Some(e) => {
                &&& r is Err
                &&& r->Err_0 == e
                &&& *final(engine) == *old(engine)
                &&& *final(ctx) == *old(ctx)
            },
            None => {
                &&& r is Ok
                &&& final(engine).wf()
                &&& accepted_bid_step(old(engine).auction_state, final(engine).auction_state)
                &&& bid_accepted(
                    *old(engine),
                    *final(engine),
                    *old(ctx),
                    *final(ctx),
                    amount,
                    resource_value@,
                )
                &&& r->Ok_0.0 == refund_event_of(old(engine).auction_state)
                &&& r->Ok_0.1.auction_id == old(engine).auction_state.id
                &&& r->Ok_0.1.bidder == old(ctx).bidder_authority
                &&& r->Ok_0.1.amount == amount
                &&& r->Ok_0.1.resource_value@ == resource_value@
            },
        },
{
    let value_len = resource_value.as_str().unicode_len();
    if value_len < 1 || value_len > MAX_RESOURCE_VALUE_LENGTH {
        return Err(AuctionError::BidResourceValueEmptyOrTooLong);
    }
    if amount <= engine.auction_state.highest_bid_amount {
        return Err(AuctionError::BidTooLow);
    }
    let end = match round_end_timestamp(
        engine.auction_state.start_timestamp,
        engine.auction_config.auction_duration,
    ) {
        Some(t) => t,
        None => {
            return Err(AuctionError::TimestampError);
        },
    };
    if now >= end {
        return Err(AuctionError::AuctionNotActiveOrNotEnded);
    }

    let displaced_bidder = engine.auction_state.highest_bidder;
    let displaced_amount = engine.auction_state.highest_bid_amount;
    let refund_due = displaced_bidder != NO_PRINCIPAL && displaced_amount > 0;

    // Validate the refund destination and both transfers before any record
    // changes: a rejection after a partial transfer would contradict the
    // all-or-nothing contract.
    let refund_destination: Option<TokenAccount> = if refund_due {
        match ctx.previous_bidder_token_account {
            None => {
                return Err(AuctionError::MissingOrInvalidPreviousBidderTokenAccount);
            },
            Some(prev) => {
                if prev.mint != engine.auction_config.bidding_token_mint {
                    return Err(AuctionError::InvalidBiddingMint);
                }
                if prev.owner != displaced_bidder {
                    return Err(AuctionError::InvalidPreviousBidderTokenAccountOwner);
                }
                if engine.program_token_account.mint != prev.mint {
                    return Err(AuctionError::InvalidBiddingMint);
                }
                if displaced_amount > u64::MAX - prev.balance {
                    return Err(AuctionError::ArithmeticOverflow);
                }
                Some(prev)
            },
        }
    } else {
        None
    };

    if ctx.bidder_token_account.mint != engine.program_token_account.mint {
        return Err(AuctionError::InvalidBiddingMint);
    }
    let bidder = ctx.bidder_authority;
    if bidder != ctx.bidder_token_account.owner {
        return Err(AuctionError::UnauthorizedTransfer);
    }
    if ctx.bidder_token_account.balance < amount {
        return Err(AuctionError::InsufficientFunds);
    }

    // Refund the displaced leader out of escrow, authorized by the engine's
    // own credential.
    let refund_event: Option<BidRefunded> = match refund_destination {
        Some(prev) => {
            let mut destination = prev;
            let refund_result = transfer(
                &mut engine.program_token_account,
                &mut destination,
                displaced_amount,
                engine.auction_config.vault_authorization_handle,
            );
            assert(refund_result is Ok);
            ctx.previous_bidder_token_account = Some(destination);
            Some(
                BidRefunded {
                    auction_id: engine.auction_state.id,
                    bidder: displaced_bidder,
                    amount: displaced_amount,
                },
            )
        },
        None => None,
    };

    // Take the bid into escrow, authorized by the bidder.
    let intake_result = transfer(
        &mut ctx.bidder_token_account,
        &mut engine.program_token_account,
        amount,
        bidder,
    );
    assert(intake_result is Ok);

    engine.auction_state.highest_bidder = bidder;
    engine.auction_state.highest_bid_amount = amount;
    let placed = BidPlaced {
        auction_id: engine.auction_state.id,
        bidder,
        amount,
        resource_value: resource_value.clone(),
    };
    engine.auction_state.highest_bid_resource_value = resource_value;
    Ok((refund_event, placed))
}

/// The archived winner of a round: the leader, or nobody.
pub open spec fn winner_of(st: AuctionState) -> Principal {
    if st.has_leader() {
        st.highest_bidder
    } else {
        NO_PRINCIPAL
    }
}

/// The archived winning amount of a round: the leading amount, or zero.
pub open spec fn winning_amount_of(st: AuctionState) -> u64 {
    if st.has_leader() {
        st.highest_bid_amount
    } else {
        0
    }
}

/// The archived resource value of a round: the winning bid's, or the
/// configured default when the round ends without bids.
pub open spec fn winning_value_of(st: AuctionState, cfg: AuctionConfig) -> Seq<char> {
    if st.has_leader() {
        st.highest_bid_resource_value@
    } else {
        cfg.default_resource_value@
    }
}

/// Why the counter updates of finalization would overflow.
pub open spec fn counter_rejection(cfg: AuctionConfig) -> Option<AuctionError> {
    if cfg.total_auctions_held + 1 > u64::MAX {
        Some(AuctionError::ArithmeticOverflow)
    } else if cfg.current_auction_id + 1 > u64::MAX {
        Some(AuctionError::ArithmeticOverflow)
    } else {
        None
    }
}

/// Why `finalize_auction` rejects, or `None` if it proceeds. The checks run
/// in this order: the caller's authority, the round's deadline, the proceeds
/// transfer (only when the round has a winner), and the round counters.
pub open spec fn finalize_rejection(
    engine: SettlementEngine,
    ctx: FinalizeAuction,
    now: i64,
) -> Option<AuctionError> {
    let cfg = engine.auction_config;
    let st = engine.auction_state;
    let vault = engine.program_token_account;
    if ctx.authority != cfg.authority {
        Some(AuctionError::InvalidAuthority)
    } else if st.end_time(cfg.auction_duration) > i64::MAX {
        Some(AuctionError::TimestampError)
    } else if now < st.end_time(cfg.auction_duration) {
        Some(AuctionError::AuctionNotYetEnded)
    } else if st.has_leader() {
        match transfer_rejection(
            vault,
            ctx.authority_token_account,
            st.highest_bid_amount,
            cfg.vault_authorization_handle,
        ) {
            Some(te) => Some(spec_auction_error_of_transfer(te)),
            None => counter_rejection(cfg),
        }
    } else {
        counter_rejection(cfg)
    }
}

/// The archive entry finalization writes for the round that just ended.
pub open spec fn archived_outcome(d: HistoricalAuctionData, pre: SettlementEngine, now: i64) -> bool {
    &&& d.auction_id == pre.auction_config.current_auction_id
    &&& d.winner == winner_of(pre.auction_state)
    &&& d.winning_amount == winning_amount_of(pre.auction_state)
    &&& d.winning_resource_value@ == winning_value_of(pre.auction_state, pre.auction_config)
    &&& d.end_timestamp == now
}

/// What finalization does to the records: the finished round is archived
/// (appended, everything before it untouched), both counters advance by
/// exactly one, the vault is drained, and the next round opens at `now` with
/// no leader. The configuration's settings stand untouched.
pub open spec fn round_finalized(pre: SettlementEngine, post: SettlementEngine, now: i64) -> bool {
    let cfg = pre.auction_config;
    &&& post.auction_config.authority == cfg.authority
    &&& post.auction_config.bidding_token_mint == cfg.bidding_token_mint
    &&& post.auction_config.resource_name == cfg.resource_name
    &&& post.auction_config.default_resource_value == cfg.default_resource_value
    &&& post.auction_config.auction_duration == cfg.auction_duration
    &&& post.auction_config.vault_authorization_handle == cfg.vault_authorization_handle
    &&& post.auction_config.current_auction_id == cfg.current_auction_id + 1
    &&& post.auction_config.total_auctions_held == cfg.total_auctions_held + 1
    &&& post.auction_state.id == cfg.current_auction_id + 1
    &&& post.auction_state.start_timestamp == now
    &&& post.auction_state.highest_bidder == NO_PRINCIPAL
    &&& post.auction_state.highest_bid_amount == 0
    &&& post.auction_state.highest_bid_resource_value@.len() == 0
    &&& post.program_token_account.owner == pre.program_token_account.owner
    &&& post.program_token_account.mint == pre.program_token_account.mint
    &&& post.program_token_account.balance == 0
    &&& post.historical_auctions@.len() == pre.historical_auctions@.len() + 1
    &&& forall|i: int|
        0 <= i < pre.historical_auctions@.len() ==> post.historical_auctions@[i]
            == pre.historical_auctions@[i]
    &&& archived_outcome(post.historical_auctions@.last(), pre, now)
}

/// Finalizes the active round at substrate time `now`, once its duration has
/// elapsed and the caller is the configured authority. With a winner, the
/// escrowed proceeds go to the supplied destination; without one, nothing
/// moves and the configured default value is archived. Either way the round
/// is archived under its id, both counters advance by one, the old round
/// record is gone, and the next round opens at `now`. A rejected call
/// changes nothing.
pub fn finalize_auction(
    engine: &mut SettlementEngine,
    ctx: &mut FinalizeAuction,
    now: i64,
) -> (r: Result<AuctionEndedEvent, AuctionError>)
    requires
        old(engine).wf(),
    ensures
        engine_evolves(*old(engine), *final(engine)),
        match finalize_rejection(*old(engine), *old(ctx), now) {
            Some(e) => {
                &&& r is Err
                &&& r->Err_0 == e
                &&& *final(engine) == *old(engine)
                &&& *final(ctx) == *old(ctx)
            },
            None => {
                &&& r is Ok
                &&& final(engine).wf()
                &&& round_finalized(*old(engine), *final(engine), now)
                &&& final(ctx).authority == old(ctx).authority
                &&& final(ctx).authority_token_account.owner == old(
                    ctx,
                ).authority_token_account.owner
                &&& final(ctx).authority_token_account.mint == old(
                    ctx,
                ).authority_token_account.mint
                &&& final(ctx).authority_token_account.balance == old(
                    ctx,
                ).authority_token_account.balance + winning_amount_of(old(engine).auction_state)
                &&& r->Ok_0.auction_id == old(engine).auction_config.current_auction_id
                &&& r->Ok_0.winner == winner_of(old(engine).auction_state)
                &&& r->Ok_0.amount == winning_amount_of(old(engine).auction_state)
                &&& r->Ok_0.resource_value@ == winning_value_of(
                    old(engine).auction_state,
                    old(engine).auction_config,
                )
                &&& r->Ok_0.end_timestamp == now
            },
        },
{
    if ctx.authority != engine.auction_config.authority {
        return Err(AuctionError::InvalidAuthority);
    }
    let end = match round_end_timestamp(
        engine.auction_state.start_timestamp,
        engine.auction_config.auction_duration,
    ) {
        Some(t) => t,
        None => {
            return Err(AuctionError::TimestampError);
        },
    };
    if now < end {
        return Err(AuctionError::AuctionNotYetEnded);
    }

    let leader = engine.auction_state.highest_bidder;
    let leading_amount = engine.auction_state.highest_bid_amount;
    let has_winner = leader != NO_PRINCIPAL && leading_amount > 0;

    // Validate the proceeds transfer and the counter updates before any
    // record changes (all-or-nothing).
    if has_winner {
        if ctx.authority_token_account.mint != engine.program_token_account.mint {
            return Err(AuctionError::InvalidBiddingMint);
        }
        if leading_amount > u64::MAX - ctx.authority_token_account.balance {
            return Err(AuctionError::ArithmeticOverflow);
        }
    }
    if engine.auction_config.total_auctions_held == u64::MAX {
        return Err(AuctionError::ArithmeticOverflow);
    }
    if engine.auction_config.current_auction_id == u64::MAX {
        return Err(AuctionError::ArithmeticOverflow);
    }

    // Transfer the winning proceeds out of escrow, authorized by the
    // engine's own credential.
    let winner: Principal;
    let winning_amount: u64;
    let winning_resource_value: String;
    if has_winner {
        let proceeds_result = transfer(
            &mut engine.program_token_account,
            &mut ctx.authority_token_account,
            leading_amount,
            engine.auction_config.vault_authorization_handle,
        );
        assert(proceeds_result is Ok);
        winner = leader;
        winning_amount = leading_amount;
        winning_resource_value = engine.auction_state.highest_bid_resource_value.clone();
    } else {
        winner = NO_PRINCIPAL;
        winning_amount = 0;
        winning_resource_value = engine.auction_config.default_resource_value.clone();
    }

    // Archive the finished round, advance the counters, open the next round.
    let finished_id = engine.auction_state.id;
    engine.historical_auctions.push(HistoricalAuctionData {
        auction_id: finished_id,
        winner,
        winning_amount,
        winning_resource_value: winning_resource_value.clone(),
        end_timestamp: now,
    });
    engine.auction_config.total_auctions_held = engine.auction_config.total_auctions_held + 1;
    engine.auction_config.current_auction_id = engine.auction_config.current_auction_id + 1;
    engine.auction_state = AuctionState::open_round(engine.auction_config.current_auction_id, now);

    Ok(AuctionEndedEvent {
        auction_id: finished_id,
        winner,
        amount: winning_amount,
        resource_value: winning_resource_value,
        end_timestamp: now,
    })
}

/// The administrative operations leave everything but the configuration
/// untouched: the active round, the escrow vault and the archive stand.
pub open spec fn only_config_changed(pre: SettlementEngine, post: SettlementEngine) -> bool {
    &&& post.auction_state == pre.auction_state
    &&& post.program_token_account == pre.program_token_account
    &&& post.historical_auctions == pre.historical_auctions
}

/// Sets the bidding asset. Authority-gated; rejects the null asset.
pub fn set_bidding_token(
    engine: &mut SettlementEngine,
    ctx: &SetBiddingToken,
    new_token_mint: u64,
) -> (r: Result<(), AuctionError>)
    requires
        old(engine).wf(),
    ensures
        final(engine).wf(),
        engine_evolves(*old(engine), *final(engine)),
        ctx.authority != old(engine).auction_config.authority ==> r is Err && r->Err_0
            == AuctionError::InvalidAuthority && *final(engine) == *old(engine),
        ctx.authority == old(engine).auction_config.authority && new_token_mint == NO_ASSET ==> r
            is Err && r->Err_0 == AuctionError::InvalidBiddingMint && *final(engine) == *old(
            engine,
        ),
        ctx.authority == old(engine).auction_config.authority && new_token_mint != NO_ASSET ==> {
            &&& r is Ok
            &&& only_config_changed(*old(engine), *final(engine))
            &&& final(engine).auction_config == (AuctionConfig {
                bidding_token_mint: new_token_mint,
                ..old(engine).auction_config
            })
        },
{
    if ctx.authority != engine.auction_config.authority {
        return Err(AuctionError::InvalidAuthority);
    }
    if new_token_mint == NO_ASSET {
        return Err(AuctionError::InvalidBiddingMint);
    }
    engine.auction_config.bidding_token_mint = new_token_mint;
    Ok(())
}

/// Sets the round duration for rounds opened from now on. Authority-gated;
/// rejects a zero duration.
pub fn set_auction_duration(
    engine: &mut SettlementEngine,
    ctx: &SetAuctionDuration,
    new_duration: u64,
) -> (r: Result<(), AuctionError>)
    requires
        old(engine).wf(),
    ensures
        final(engine).wf(),
        engine_evolves(*old(engine), *final(engine)),
        ctx.authority != old(engine).auction_config.authority ==> r is Err && r->Err_0
            == AuctionError::InvalidAuthority && *final(engine) == *old(engine),
        ctx.authority == old(engine).auction_config.authority && new_duration == 0 ==> r is Err
            && r->Err_0 == AuctionError::AuctionDurationTooShort && *final(engine) == *old(engine),
        ctx.authority == old(engine).auction_config.authority && new_duration > 0 ==> {
            &&& r is Ok
            &&& only_config_changed(*old(engine), *final(engine))
            &&& final(engine).auction_config == (AuctionConfig {
                auction_duration: new_duration,
                ..old(engine).auction_config
            })
        },
{
    if ctx.authority != engine.auction_config.authority {
        return Err(AuctionError::InvalidAuthority);
    }
    if new_duration == 0 {
        return Err(AuctionError::AuctionDurationTooShort);
    }
    engine.auction_config.auction_duration = new_duration;
    Ok(())
}

/// Sets the default resource value archived for rounds without bids.
/// Authority-gated; rejects an empty or over-long value.
pub fn set_default_resource_value(
    engine: &mut SettlementEngine,
    ctx: &SetDefaultResourceValue,
    new_value: String,
) -> (r: Result<(), AuctionError>)
    requires
        old(engine).wf(),
    ensures
        final(engine).wf(),
        engine_evolves(*old(engine), *final(engine)),
        ctx.authority != old(engine).auction_config.authority ==> r is Err && r->Err_0
            == AuctionError::InvalidAuthority && *final(engine) == *old(engine),
        ctx.authority == old(engine).auction_config.authority && (new_value@.len() < 1
            || new_value@.len() > MAX_RESOURCE_VALUE_LENGTH) ==> r is Err && r->Err_0
            == AuctionError::ResourceValueTooLong && *final(engine) == *old(engine),
        ctx.authority == old(engine).auction_config.authority && 1 <= new_value@.len()
            <= MAX_RESOURCE_VALUE_LENGTH ==> {
            &&& r is Ok
            &&& only_config_changed(*old(engine), *final(engine))
            &&& final(engine).auction_config == (AuctionConfig {
                default_resource_value: new_value,
                ..old(engine).auction_config
            })
        },
{
    if ctx.authority != engine.auction_config.authority {
        return Err(AuctionError::InvalidAuthority);
    }
    let value_len = new_value.as_str().unicode_len();
    if value_len < 1 || value_len > MAX_RESOURCE_VALUE_LENGTH {
        return Err(AuctionError::ResourceValueTooLong);
    }
    engine.auction_config.default_resource_value = new_value;
    Ok(())
}

/// Sets the auctioned resource's name. Authority-gated; rejects an empty or
/// over-long name.
pub fn set_resource_name(
    engine: &mut SettlementEngine,
    ctx: &SetResourceName,
    new_name: String,
) -> (r: Result<(), AuctionError>)
    requires
        old(engine).wf(),
    ensures
        final(engine).wf(),
        engine_evolves(*old(engine), *final(engine)),
        ctx.authority != old(engine).auction_config.authority ==> r is Err && r->Err_0
            == AuctionError::InvalidAuthority && *final(engine) == *old(engine),
        ctx.authority == old(engine).auction_config.authority && (new_name@.len() < 1
            || new_name@.len() > MAX_RESOURCE_NAME_LENGTH) ==> r is Err && r->Err_0
            == AuctionError::ResourceNameTooLong && *final(engine) == *old(engine),
        ctx.authority == old(engine).auction_config.authority && 1 <= new_name@.len()
            <= MAX_RESOURCE_NAME_LENGTH ==> {
            &&& r is Ok
            &&& only_config_changed(*old(engine), *final(engine))
            &&& final(engine).auction_config == (AuctionConfig {
                resource_name: new_name,
                ..old(engine).auction_config
            })
        },
{
    if ctx.authority != engine.auction_config.authority {
        return Err(AuctionError::InvalidAuthority);
    }
    let name_len = new_name.as_str().unicode_len();
    if name_len < 1 || name_len > MAX_RESOURCE_NAME_LENGTH {
        return Err(AuctionError::ResourceNameTooLong);
    }
    engine.auction_config.resource_name = new_name;
    Ok(())
}

} // verus!
