//! The ledger substrate's value-holding records and its atomic,
//! authorization-gated transfer primitive, modelled over plain values.

use vstd::prelude::*;

verus! {

/// A principal on the ledger: the holder of an account, a caller, or an
/// authorization credential presented to the transfer primitive.
pub type Principal = u64;

/// The null principal. It encodes the absence of a principal: a round with no
/// leading bidder yet, or an archived round without a winner.
pub const NO_PRINCIPAL: Principal = 0;

/// The null asset identifier; no account holds it, and the configuration
/// never accepts it as the bidding asset.
pub const NO_ASSET: u64 = 0;

/// A value-holding record: `balance` units of the fungible asset identified
/// by `mint`, controlled by `owner`. Only `owner` may authorize outgoing
/// transfers.
#[derive(Clone, Copy, PartialEq, Eq, Structural, Debug)]
pub struct TokenAccount {
    pub owner: Principal,
    pub mint: u64,
    pub balance: u64,
}

/// Why the substrate refused a transfer. The transfer primitive fails closed:
/// on any of these, neither account changes.
#[derive(Clone, Copy, PartialEq, Eq, Structural, Debug)]
pub enum TransferError {
    /// The two accounts hold different assets.
    AssetMismatch,
    /// The authorizer does not control the source account.
    Unauthorized,
    /// The source balance is smaller than the requested amount.
    InsufficientFunds,
    /// The destination balance would exceed the representable maximum.
    BalanceOverflow,
}

/// Why `transfer` would refuse to move `amount` from `from` to `to` on behalf
/// of `authorizer`, or `None` if it succeeds. The checks run in this order:
/// asset, authorization, source balance, destination overflow.
pub open spec fn transfer_rejection(
    from: TokenAccount,
    to: TokenAccount,
    amount: u64,
    authorizer: Principal,
) -> Option<TransferError> {
    if from.mint != to.mint {
        Some(TransferError::AssetMismatch)
    } else if authorizer != from.owner {
        Some(TransferError::Unauthorized)
    } else if from.balance < amount {
        Some(TransferError::InsufficientFunds)
    } else if to.balance + amount > u64::MAX {
        Some(TransferError::BalanceOverflow)
    } else {
        None
    }
}

/// The source account after a successful transfer of `amount` out of it.
pub open spec fn debited(a: TokenAccount, amount: u64) -> TokenAccount {
    TokenAccount { owner: a.owner, mint: a.mint, balance: (a.balance - amount) as u64 }
}

/// The destination account after a successful transfer of `amount` into it.
pub open spec fn credited(a: TokenAccount, amount: u64) -> TokenAccount {
    TokenAccount { owner: a.owner, mint: a.mint, balance: (a.balance + amount) as u64 }
}

/// The substrate's atomic transfer primitive: moves `amount` from `from` to
/// `to` when both accounts hold the same asset, `authorizer` controls `from`,
/// the source balance suffices and the destination balance does not overflow.
/// Otherwise it fails closed and leaves both accounts exactly as they were.
pub fn transfer(
    from: &mut TokenAccount,
    to: &mut TokenAccount,
    amount: u64,
    authorizer: Principal,
) -> (r: Result<(), TransferError>)
    ensures
        match transfer_rejection(*old(from), *old(to), amount, authorizer) {
            Some(e) => {
                &&& r == Err::<(), TransferError>(e)
                &&& *final(from) == *old(from)
                &&& *final(to) == *old(to)
            },
            None => {
                &&& r == Ok::<(), TransferError>(())
                &&& *final(from) == debited(*old(from), amount)
                &&& *final(to) == credited(*old(to), amount)
            },
        },
{
    if from.mint != to.mint {
        Err(TransferError::AssetMismatch)
    } else if authorizer != from.owner {
        Err(TransferError::Unauthorized)
    } else if from.balance < amount {
        Err(TransferError::InsufficientFunds)
    } else if amount > u64::MAX - to.balance {
        Err(TransferError::BalanceOverflow)
    } else {
        from.balance = from.balance - amount;
        to.balance = to.balance + amount;
        Ok(())
    }
}

} // verus!
