//! The four requests that custody makes of the token ledger.

use vstd::prelude::*;
use crate::accounts::{AccountInfo, Mint, TokenAccount};
use crate::derivation::AuthorityProof;
use crate::ledger::{LedgerInstruction, LedgerRequest};

verus! {

/// The request to move `amount` from `source` to `destination`, checked by
/// the ledger against the decimals of `mint`.
pub fn transfer(
    source: &TokenAccount,
    destination: &TokenAccount,
    authority: AuthorityProof,
    mint: &Mint,
    amount: u64,
) -> (instruction: LedgerInstruction)
    ensures
        instruction@ == (LedgerRequest::Transfer {
            from: source.key,
            to: destination.key,
            mint: mint.key,
            amount,
            decimals: mint.decimals,
            authority: authority@,
        }),
{
    LedgerInstruction::TransferChecked {
        from: source.key,
        mint: mint.key,
        to: destination.key,
        amount,
        decimals: mint.decimals,
        authority,
    }
}

/// The request to close `account` and hand what it holds to `destination`.
pub fn close_token_account(
    account: &TokenAccount,
    destination: &AccountInfo,
    authority: AuthorityProof,
) -> (instruction: LedgerInstruction)
    ensures
        instruction@ == (LedgerRequest::Close {
            account: account.key,
            destination: destination.key,
            authority: authority@,
        }),
{
    LedgerInstruction::CloseAccount {
        account: account.key,
        destination: destination.key,
        authority,
    }
}

/// The request to let `delegate` spend up to `amount` out of `account`.
pub fn approve_token(
    account: &TokenAccount,
    delegate: &AccountInfo,
    authority: AuthorityProof,
    amount: u64,
) -> (instruction: LedgerInstruction)
    ensures
        instruction@ == (LedgerRequest::Approve {
            account: account.key,
            delegate: delegate.key,
            amount,
            authority: authority@,
        }),
{
    LedgerInstruction::Approve { to: account.key, delegate: delegate.key, amount, authority }
}

/// The request to take back the right to spend out of `account`.
pub fn revoke_approval(account: &TokenAccount, authority: AuthorityProof) -> (instruction:
    LedgerInstruction)
    ensures
        instruction@ == (LedgerRequest::Revoke { account: account.key, authority: authority@ }),
{
    LedgerInstruction::Revoke { source: account.key, authority }
}

} // verus!
