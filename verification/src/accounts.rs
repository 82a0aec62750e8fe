//! What an operation is handed: the accounts it names, as plain values.

use vstd::prelude::*;
use crate::identity::Identity;
use crate::state::{GlobalState, Registry, UserPdaVaultAccount};

verus! {

/// An account as a request names it: its identity, whether its holder
/// signed the request, and its native balance.
#[derive(Clone, Copy, Debug)]
pub struct AccountInfo {
    pub key: Identity,
    pub is_signer: bool,
    pub lamports: u64,
}

/// The account at a vault's identity.  `data` is `None` until the vault
/// has been created, and holds its record from then on.
#[derive(Clone, Copy, Debug)]
pub struct VaultAccount {
    pub key: Identity,
    pub lamports: u64,
    pub data: Option<UserPdaVaultAccount>,
}

/// The account at the registry's identity.  `data` is `None` until the
/// registry has been created.
#[derive(Debug)]
pub struct RegistryAccount {
    pub key: Identity,
    pub data: Option<GlobalState>,
}

/// A token sub-account of the ledger: its identity and its balance at the
/// time of the request.
#[derive(Clone, Copy, Debug)]
pub struct TokenAccount {
    pub key: Identity,
    pub amount: u64,
}

/// A mint of the ledger: its identity and the number of decimals in which
/// its amounts are written.
#[derive(Clone, Copy, Debug)]
pub struct Mint {
    pub key: Identity,
    pub decimals: u8,
}

impl AccountInfo {
    /// An account as a request names it.
    pub fn new(key: Identity, is_signer: bool, lamports: u64) -> (account: AccountInfo)
        ensures
            account == (AccountInfo { key, is_signer, lamports }),
    {
        AccountInfo { key, is_signer, lamports }
    }
}

impl VaultAccount {
    /// The account at `key` before any vault has been created there.
    pub fn vacant(key: Identity, lamports: u64) -> (account: VaultAccount)
        ensures
            account == (VaultAccount { key, lamports, data: None }),
    {
        VaultAccount { key, lamports, data: None }
    }
}

impl RegistryAccount {
    /// The account at `key` before the registry has been created there.
    pub fn vacant(key: Identity) -> (account: RegistryAccount)
        ensures
            account.key == key,
            account.data is None,
    {
        RegistryAccount { key, data: None }
    }

    /// The registry that the account holds, if it holds one.
    pub open spec fn registry(&self) -> Option<Registry> {
        match self.data {
            Some(state) => Some(state@),
            None => None,
        }
    }
}

impl Clone for RegistryAccount {
    fn clone(&self) -> (copy: RegistryAccount)
        ensures
            copy.key == self.key,
            copy.registry() == self.registry(),
    {
        let data = match &self.data {
            Some(state) => Some(state.clone()),
            None => None,
        };
        RegistryAccount { key: self.key, data }
    }
}

/// The accounts of a request that names none.
#[derive(Clone, Copy, Debug)]
pub struct Initialize {}

/// The accounts of a vault's creation.
#[derive(Clone, Copy, Debug)]
pub struct CreateUserPDA {
    pub payer: AccountInfo,
    pub owner: AccountInfo,
    pub user_vault: VaultAccount,
}

/// The accounts of the registry's creation.
#[derive(Debug)]
pub struct InitializeGlobalState {
    pub payer: AccountInfo,
    pub global_state: RegistryAccount,
    pub admin: AccountInfo,
}

/// The accounts of a change of administrator.
#[derive(Debug)]
pub struct UpdateAdmin {
    pub admin: AccountInfo,
    pub global_state: RegistryAccount,
    pub new_admin: AccountInfo,
}

/// The accounts of a change to the operators.
#[derive(Debug)]
pub struct UpdateOperator {
    pub admin: AccountInfo,
    pub global_state: RegistryAccount,
    pub operator: AccountInfo,
}

/// The accounts of a native transfer out of a vault by its owner.
#[derive(Clone, Copy, Debug)]
pub struct TransferLamports {
    pub user: AccountInfo,
    pub user_vault: VaultAccount,
    pub to: AccountInfo,
}

/// The accounts of a token transfer by a vault's owner.
#[derive(Clone, Copy, Debug)]
pub struct TransferToken {
    pub user: AccountInfo,
    pub user_vault: VaultAccount,
    pub from_token_account: TokenAccount,
    pub to_token_account: TokenAccount,
    pub mint: Mint,
}

/// The accounts of a token transfer by an operator, out of the vault of
/// `user`.
#[derive(Debug)]
pub struct TransferByOperator {
    pub operator: AccountInfo,
    pub user: AccountInfo,
    pub user_vault: VaultAccount,
    pub global_state: RegistryAccount,
    pub from_token_account: TokenAccount,
    pub to_token_account: TokenAccount,
    pub mint: Mint,
}

/// The accounts of the closing of a token sub-account by an operator.
#[derive(Debug)]
pub struct CloseTokenAccountByOperator {
    pub operator: AccountInfo,
    pub user: AccountInfo,
    pub user_vault: VaultAccount,
    pub global_state: RegistryAccount,
    pub token_account: TokenAccount,
    pub destination: AccountInfo,
    pub mint: Mint,
}

/// The accounts of the closing of a token sub-account by a vault's owner.
#[derive(Clone, Copy, Debug)]
pub struct CloseTokenAccount {
    pub user: AccountInfo,
    pub user_vault: VaultAccount,
    pub token_account: TokenAccount,
    pub destination: AccountInfo,
    pub mint: Mint,
}

/// The accounts of the approval of a delegate.
#[derive(Clone, Copy, Debug)]
pub struct ApproveToken {
    pub user: AccountInfo,
    pub user_vault: VaultAccount,
    pub token_account: TokenAccount,
    pub delegate: AccountInfo,
}

/// The accounts of the revocation of a delegate.
#[derive(Clone, Copy, Debug)]
pub struct RevokeApproval {
    pub user: AccountInfo,
    pub user_vault: VaultAccount,
    pub token_account: TokenAccount,
    pub delegate: AccountInfo,
}

} // verus!
