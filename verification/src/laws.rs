//! The engine's global laws, stated and proved over the relations that the
//! operations' contracts establish.
//!
//! Reachable states are those produced by `initialize_auction` and then any
//! run of operations. `initialize_auction` ensures `wf()` of the engine it
//! returns, and every operation requires `wf()` and ensures it again, so
//! every reachable state satisfies `wf()`; likewise every operation ensures
//! `engine_evolves` between its pre- and post-state, and every accepted bid
//! ensures `accepted_bid_step` between the round states. The lemmas here
//! state what follows for such states and runs.

use vstd::prelude::*;
use crate::contexts::PlaceBid;
use crate::records::AuctionState;
use crate::engine::{
    accepted_bid_step, archive_extends, bid_accepted, engine_evolves, place_bid_rejection,
    refund_event_of, SettlementEngine,
};
use crate::ledger::credited;

verus! {

/// Monotonic bids: along any run of accepted bids within one round, the
/// leading amount is strictly increasing.
pub proof fn lemma_monotonic_bids(trace: Seq<AuctionState>)
    requires
        forall|k: int|
            0 <= k < trace.len() - 1 ==> #[trigger] accepted_bid_step(trace[k], trace[k + 1]),
    ensures
        forall|i: int, j: int|
            0 <= i < j < trace.len() ==> trace[i].highest_bid_amount < trace[j].highest_bid_amount,
{
    assert forall|i: int, j: int| 0 <= i < j < trace.len() implies trace[i].highest_bid_amount
        < trace[j].highest_bid_amount by {
        lemma_bid_amount_increases(trace, i, j);
    }
}

proof fn lemma_bid_amount_increases(trace: Seq<AuctionState>, i: int, j: int)
    requires
        forall|k: int|
            0 <= k < trace.len() - 1 ==> #[trigger] accepted_bid_step(trace[k], trace[k + 1]),
        0 <= i < j < trace.len(),
    ensures
        trace[i].highest_bid_amount < trace[j].highest_bid_amount,
    decreases j - i,
{
    if i + 1 < j {
        lemma_bid_amount_increases(trace, i, j - 1);
    }
    let k = j - 1;
    assert(accepted_bid_step(trace[k], trace[k + 1]));
    assert(trace[k + 1] == trace[j]);
}

/// Escrow invariant: in every reachable state before finalization the vault
/// holds exactly the leading amount — the funds of at most one bidder, the
/// current leader's.
pub proof fn lemma_escrow_invariant(e: SettlementEngine)
    requires
        e.wf(),
    ensures
        e.program_token_account.balance == e.auction_state.highest_bid_amount,
{
}

/// Round sequencing: in every reachable state the archive ids form the
/// gapless sequence 1, 2, ... of completed rounds, and the active round is
/// the next one.
pub proof fn lemma_round_sequencing(e: SettlementEngine)
    requires
        e.wf(),
    ensures
        e.auction_config.current_auction_id == e.historical_auctions@.len() + 1,
        e.auction_state.id == e.historical_auctions@.len() + 1,
        forall|i: int|
            0 <= i < e.historical_auctions@.len() ==> (#[trigger] e.historical_auctions@[i]).auction_id == i + 1,
{
}

/// No double finalize: in every reachable state no two archive entries carry
/// the same round id, so no round is ever finalized twice.
pub proof fn lemma_no_double_finalize(e: SettlementEngine)
    requires
        e.wf(),
    ensures
        forall|i: int, j: int|
            0 <= i < j < e.historical_auctions@.len()
                ==> (#[trigger] e.historical_auctions@[i]).auction_id
                != (#[trigger] e.historical_auctions@[j]).auction_id,
{
}

/// Refund completeness: a bid that displaces a leader refunds them exactly
/// once — their full contributed amount, into an account of their own,
/// before the round can finalize — and announces exactly that refund.
pub proof fn lemma_refund_completeness(
    pre: SettlementEngine,
    post: SettlementEngine,
    pre_ctx: PlaceBid,
    post_ctx: PlaceBid,
    amount: u64,
    resource_value: Seq<char>,
    now: i64,
)
    requires
        pre.wf(),
        pre.auction_state.has_leader(),
        place_bid_rejection(pre, pre_ctx, amount, resource_value, now) is None,
        bid_accepted(pre, post, pre_ctx, post_ctx, amount, resource_value),
    ensures
        pre_ctx.previous_bidder_token_account is Some,
        pre_ctx.previous_bidder_token_account->Some_0.owner == pre.auction_state.highest_bidder,
        post_ctx.previous_bidder_token_account == Some(
            credited(
                pre_ctx.previous_bidder_token_account->Some_0,
                pre.auction_state.highest_bid_amount,
            ),
        ),
        refund_event_of(pre.auction_state)->Some_0.bidder == pre.auction_state.highest_bidder,
        refund_event_of(pre.auction_state)->Some_0.amount == pre.auction_state.highest_bid_amount,
{
}

/// Idempotent rejection: a bid that does not exceed the leading amount is
/// rejected whatever the time of the call — and a rejected bid, like every
/// rejected operation, changes nothing.
pub proof fn lemma_low_bid_always_rejected(
    engine: SettlementEngine,
    ctx: PlaceBid,
    amount: u64,
    resource_value: Seq<char>,
    now: i64,
)
    requires
        amount <= engine.auction_state.highest_bid_amount,
    ensures
        place_bid_rejection(engine, ctx, amount, resource_value, now) is Some,
{
}

/// The archive is append-only: across any run of operations, every entry a
/// state holds stands unchanged, at its place, in every later state.
pub proof fn lemma_archives_immutable(trace: Seq<SettlementEngine>)
    requires
        forall|k: int|
            0 <= k < trace.len() - 1 ==> #[trigger] engine_evolves(trace[k], trace[k + 1]),
    ensures
        forall|i: int, j: int|
            0 <= i <= j < trace.len() ==> #[trigger] archive_extends(
                trace[i].historical_auctions@,
                trace[j].historical_auctions@,
            ),
{
    assert forall|i: int, j: int| 0 <= i <= j < trace.len() implies #[trigger] archive_extends(
        trace[i].historical_auctions@,
        trace[j].historical_auctions@,
    ) by {
        lemma_archive_extends_along(trace, i, j);
    }
}

proof fn lemma_archive_extends_along(trace: Seq<SettlementEngine>, i: int, j: int)
    requires
        forall|k: int|
            0 <= k < trace.len() - 1 ==> #[trigger] engine_evolves(trace[k], trace[k + 1]),
        0 <= i <= j < trace.len(),
    ensures
        archive_extends(trace[i].historical_auctions@, trace[j].historical_auctions@),
    decreases j - i,
{
    if i < j {
        lemma_archive_extends_along(trace, i, j - 1);
        let k = j - 1;
        assert(engine_evolves(trace[k], trace[k + 1]));
        assert(trace[k + 1] == trace[j]);
    }
}

} // verus!
