use token_auction_program::ledger::{transfer, TokenAccount, TransferError};

fn acct(owner: u64, mint: u64, balance: u64) -> TokenAccount {
    TokenAccount {
        owner,
        mint,
        balance,
    }
}

#[test]
fn transfer_moves_funds() {
    let mut from = acct(1, 5, 30);
    let mut to = acct(2, 5, 7);
    assert!(transfer(&mut from, &mut to, 12, 1).is_ok());
    assert_eq!(from, acct(1, 5, 18));
    assert_eq!(to, acct(2, 5, 19));
}

#[test]
fn transfer_rejects_asset_mismatch() {
    let mut from = acct(1, 5, 30);
    let mut to = acct(2, 6, 7);
    let r = transfer(&mut from, &mut to, 12, 1);
    assert_eq!(r, Err(TransferError::AssetMismatch));
    assert_eq!(from, acct(1, 5, 30));
    assert_eq!(to, acct(2, 6, 7));
}

#[test]
fn transfer_rejects_unauthorized() {
    let mut from = acct(1, 5, 30);
    let mut to = acct(2, 5, 7);
    let r = transfer(&mut from, &mut to, 12, 2);
    assert_eq!(r, Err(TransferError::Unauthorized));
    assert_eq!(from, acct(1, 5, 30));
}

#[test]
fn transfer_rejects_insufficient_funds() {
    let mut from = acct(1, 5, 11);
    let mut to = acct(2, 5, 7);
    let r = transfer(&mut from, &mut to, 12, 1);
    assert_eq!(r, Err(TransferError::InsufficientFunds));
    assert_eq!(from, acct(1, 5, 11));
    assert_eq!(to, acct(2, 5, 7));
}

#[test]
fn transfer_rejects_destination_overflow() {
    let mut from = acct(1, 5, 30);
    let mut to = acct(2, 5, u64::MAX - 3);
    let r = transfer(&mut from, &mut to, 12, 1);
    assert_eq!(r, Err(TransferError::BalanceOverflow));
    assert_eq!(from, acct(1, 5, 30));
    assert_eq!(to, acct(2, 5, u64::MAX - 3));
}
