//! What is asked of the ledger.
//!
//! Balances and delegations live in a ledger that this library does not
//! hold.  An operation that is admitted does not touch them: it hands
//! back the one request to perform, with the authority that lets the vault
//! sign it.  Whoever holds the ledger performs the request, whole or not at
//! all.

use vstd::prelude::*;
use crate::derivation::{Authority, AuthorityProof};
use crate::error::CustomError;
use crate::identity::Identity;

verus! {

/// A request to the ledger, signed by a vault.
#[derive(Debug)]
pub enum LedgerInstruction {
    /// Move `amount` of `mint`, written in `decimals` decimals, from `from`
    /// to `to`.
    TransferChecked {
        from: Identity,
        mint: Identity,
        to: Identity,
        amount: u64,
        decimals: u8,
        authority: AuthorityProof,
    },
    /// Close `account` and hand what it holds to `destination`.
    CloseAccount { account: Identity, destination: Identity, authority: AuthorityProof },
    /// Let `delegate` spend up to `amount` out of `to`.
    Approve { to: Identity, delegate: Identity, amount: u64, authority: AuthorityProof },
    /// Take back whatever right to spend out of `source` was granted.
    Revoke { source: Identity, authority: AuthorityProof },
}

/// A request to the ledger as a mathematical value: what it asks, and on
/// whose authority.
pub enum LedgerRequest {
    Transfer {
        from: Identity,
        to: Identity,
        mint: Identity,
        amount: u64,
        decimals: u8,
        authority: Authority,
    },
    Close { account: Identity, destination: Identity, authority: Authority },
    Approve { account: Identity, delegate: Identity, amount: u64, authority: Authority },
    Revoke { account: Identity, authority: Authority },
}

impl View for LedgerInstruction {
    type V = LedgerRequest;

    open spec fn view(&self) -> LedgerRequest {
        match *self {
            LedgerInstruction::TransferChecked { from, mint, to, amount, decimals, authority } => {
                LedgerRequest::Transfer { from, to, mint, amount, decimals, authority: authority@ }
            },
            LedgerInstruction::CloseAccount { account, destination, authority } => {
                LedgerRequest::Close { account, destination, authority: authority@ }
            },
            LedgerInstruction::Approve { to, delegate, amount, authority } => {
                LedgerRequest::Approve { account: to, delegate, amount, authority: authority@ }
            },
            LedgerInstruction::Revoke { source, authority } => {
                LedgerRequest::Revoke { account: source, authority: authority@ }
            },
        }
    }
}

impl LedgerRequest {
    /// The authority on which the request is made.
    pub open spec fn authority(self) -> Authority {
        match self {
            LedgerRequest::Transfer { authority, .. } => authority,
            LedgerRequest::Close { authority, .. } => authority,
            LedgerRequest::Approve { authority, .. } => authority,
            LedgerRequest::Revoke { authority, .. } => authority,
        }
    }
}

impl LedgerInstruction {
    /// The proof that lets the vault sign this request.  Its claim is true.
    pub fn authority(&self) -> (proof: &AuthorityProof)
        ensures
            proof@ == self@.authority(),
    {
        match self {
            LedgerInstruction::TransferChecked { authority, .. } => authority,
            LedgerInstruction::CloseAccount { authority, .. } => authority,
            LedgerInstruction::Approve { authority, .. } => authority,
            LedgerInstruction::Revoke { authority, .. } => authority,
        }
    }
}

/// What an operation hands back, as a mathematical value: the request it
/// makes of the ledger, or the reason for refusing.
pub open spec fn requested(r: Result<LedgerInstruction, CustomError>) -> Result<
    LedgerRequest,
    CustomError,
> {
    match r {
        Ok(instruction) => Ok(instruction@),
        Err(e) => Err(e),
    }
}

} // verus!
