//! The operations.
//!
//! Each operation first has its caller authorized, then holds the
//! records it was handed against their derivations, and only then acts.  An
//! operation that is refused changes nothing.  The operations on the
//! registry and the native transfer act on the accounts they were handed;
//! the token operations hand back the request to make of the ledger.

use vstd::prelude::*;
use crate::accounts::{
    AccountInfo, ApproveToken, CloseTokenAccount, CloseTokenAccountByOperator, CreateUserPDA,
    InitializeGlobalState, RevokeApproval, TransferByOperator, TransferLamports, TransferToken,
    UpdateAdmin, UpdateOperator, VaultAccount,
};
use crate::derivation::{
    canonical_bump, check_canonical, find_registry_address, find_vault_address, is_canonical,
    lemma_canonical_bump, lemma_canonical_unique, registry_seeds, vault_seeds,
};
use crate::error::CustomError;
use crate::gate::{
    admit_administrator, admit_operator, admit_owner, administrator_admission,
    operator_admission, owner_admission,
};
use crate::identity::{lemma_identity_by_bytes, Identity};
use crate::ledger::{requested, LedgerInstruction, LedgerRequest};
use crate::state::{GlobalState, Registry, UserPdaVaultAccount, MAX_OPERATORS};
use crate::token;

verus! {

/// A search from `seeds` that `found` is the outcome of arrives at
/// `expected` under exactly the disambiguator that `canonical_bump` names.
proof fn lemma_found_is_canonical(
    seeds: Seq<Seq<u8>>,
    found: Option<(Identity, u8)>,
    expected: Identity,
)
    requires
        match found {
            Some((key, bump)) => is_canonical(seeds, key@, bump),
            None => crate::derivation::underivable(seeds),
        },
    ensures
        canonical_bump(seeds, expected@) == match found {
            Some((key, bump)) if key == expected => Some(bump),
            _ => None::<u8>,
        },
{
    match found {
        Some((key, bump)) => {
            lemma_identity_by_bytes(key, expected);
            if key == expected {
                lemma_canonical_bump(seeds, expected@, bump);
            } else if canonical_bump(seeds, expected@) is Some {
                let other = canonical_bump(seeds, expected@)->0;
                lemma_canonical_unique(seeds, key@, bump, expected@, other);
            }
        },
        None => {
            if canonical_bump(seeds, expected@) is Some {
                let other = canonical_bump(seeds, expected@)->0;
                assert(crate::derivation::derive_at(seeds, other) is None);
            }
        },
    }
}

impl CreateUserPDA {
    /// Whether the vault is created, or why not.
    pub open spec fn verdict(self) -> Result<(), CustomError> {
        if self.user_vault.data is Some {
            Err(CustomError::AlreadyInitialized)
        } else if !self.payer.is_signer {
            Err(CustomError::Unauthorized)
        } else if canonical_bump(vault_seeds(self.owner.key), self.user_vault.key@) is None {
            Err(CustomError::DerivationMismatch)
        } else {
            Ok(())
        }
    }

    /// What the vault's account holds afterwards.
    pub open spec fn record_after(self) -> Option<UserPdaVaultAccount> {
        if self.verdict() is Ok {
            Some(
                UserPdaVaultAccount {
                    owner: self.owner.key,
                    bump: canonical_bump(vault_seeds(self.owner.key), self.user_vault.key@)->0,
                },
            )
        } else {
            self.user_vault.data
        }
    }
}

/// Creates the vault of `ctx.owner` in `ctx.user_vault`.
///
/// Refused with `AlreadyInitialized` where the account holds a record
/// already, with `Unauthorized` where the payer did not sign, and with
/// `DerivationMismatch` where the account is not at the identity that a
/// search from the owner arrives at.  The record keeps the owner and the
/// disambiguator of that search.
pub fn initialize_user_pda(ctx: &mut CreateUserPDA) -> (r: Result<(), CustomError>)
    ensures
        r == old(ctx).verdict(),
        *final(ctx) == (CreateUserPDA {
            user_vault: VaultAccount { data: old(ctx).record_after(), ..old(ctx).user_vault },
            ..*old(ctx)
        }),
{
    if ctx.user_vault.data.is_some() {
        return Err(CustomError::AlreadyInitialized);
    }
    if !ctx.payer.is_signer {
        return Err(CustomError::Unauthorized);
    }
    let found = find_vault_address(&ctx.owner.key);
    proof {
        lemma_found_is_canonical(vault_seeds(ctx.owner.key), found, ctx.user_vault.key);
    }
    match check_canonical(found, &ctx.user_vault.key) {
        Ok(bump) => {
            ctx.user_vault.data = Some(UserPdaVaultAccount::new(ctx.owner.key, bump));
            Ok(())
        },
        Err(e) => Err(e),
    }
}

impl InitializeGlobalState {
    /// Whether the registry is created, or why not.
    pub open spec fn verdict(self) -> Result<(), CustomError> {
        if self.global_state.data is Some {
            Err(CustomError::AlreadyInitialized)
        } else if !self.payer.is_signer {
            Err(CustomError::Unauthorized)
        } else if canonical_bump(registry_seeds(), self.global_state.key@) is None {
            Err(CustomError::DerivationMismatch)
        } else {
            Ok(())
        }
    }

    /// The registry that the account holds afterwards, if any.
    pub open spec fn registry_after(self) -> Option<Registry> {
        if self.verdict() is Ok {
            Some(
                Registry::fresh(
                    self.admin.key,
                    canonical_bump(registry_seeds(), self.global_state.key@)->0,
                ),
            )
        } else {
            self.global_state.registry()
        }
    }
}

/// Creates the registry in `ctx.global_state`, administered by
/// `ctx.admin`, who is also its first operator.
///
/// Refused with `AlreadyInitialized` where the account holds a registry
/// already, with `Unauthorized` where the payer did not sign, and with
/// `DerivationMismatch` where the account is not at the identity that a
/// search from the registry tag arrives at.
pub fn initialize_global_state(ctx: &mut InitializeGlobalState) -> (r: Result<(), CustomError>)
    ensures
        r == old(ctx).verdict(),
        final(ctx).global_state.registry() == old(ctx).registry_after(),
        final(ctx).global_state.key == old(ctx).global_state.key,
        final(ctx).payer == old(ctx).payer,
        final(ctx).admin == old(ctx).admin,
        r is Err ==> *final(ctx) == *old(ctx),
{
    if ctx.global_state.data.is_some() {
        return Err(CustomError::AlreadyInitialized);
    }
    if !ctx.payer.is_signer {
        return Err(CustomError::Unauthorized);
    }
    let found = find_registry_address();
    proof {
        lemma_found_is_canonical(registry_seeds(), found, ctx.global_state.key);
    }
    match check_canonical(found, &ctx.global_state.key) {
        Ok(bump) => {
            ctx.global_state.data = Some(GlobalState::new(ctx.admin.key, bump));
            Ok(())
        },
        Err(e) => Err(e),
    }
}

impl UpdateAdmin {
    /// Whether the administrator is replaced, or why not.
    pub open spec fn verdict(self) -> Result<(), CustomError> {
        administrator_admission(self.admin, self.global_state)
    }

    /// The registry that the account holds afterwards, if any.
    pub open spec fn registry_after(self) -> Option<Registry> {
        if self.verdict() is Ok {
            Some(self.global_state.data->0@.with_admin(self.new_admin.key))
        } else {
            self.global_state.registry()
        }
    }
}

/// Replaces the administrator by `ctx.new_admin`.  The operators stay as
/// they are: the new administrator is not added, the old one not removed.
///
/// Refused with `Unauthorized` unless `ctx.admin` signed and is the
/// administrator, and with `DerivationMismatch` where the registry does
/// not derive.
pub fn update_admin(ctx: &mut UpdateAdmin) -> (r: Result<(), CustomError>)
    ensures
        r == old(ctx).verdict(),
        final(ctx).global_state.registry() == old(ctx).registry_after(),
        final(ctx).global_state.key == old(ctx).global_state.key,
        final(ctx).admin == old(ctx).admin,
        final(ctx).new_admin == old(ctx).new_admin,
        r is Err ==> *final(ctx) == *old(ctx),
{
    match admit_administrator(&ctx.admin, &ctx.global_state) {
        Err(e) => Err(e),
        Ok(()) => {
            let new_admin = ctx.new_admin.key;
            match &mut ctx.global_state.data {
                Some(state) => {
                    state.admin = new_admin;
                },
                None => {},
            }
            Ok(())
        },
    }
}

impl UpdateOperator {
    /// Whether the operators are changed, or why not.
    pub open spec fn verdict(self, add: bool) -> Result<(), CustomError> {
        match administrator_admission(self.admin, self.global_state) {
            Err(e) => Err(e),
            Ok(()) => {
                if add && self.global_state.data->0@.operators.len() >= MAX_OPERATORS {
                    Err(CustomError::CapacityExceeded)
                } else {
                    Ok(())
                }
            },
        }
    }

    /// The registry that the account holds afterwards, if any.
    pub open spec fn registry_after(self, add: bool) -> Option<Registry> {
        if self.verdict(add) is Ok {
            let registry = self.global_state.data->0@;
            if add {
                Some(registry.with_operator(self.operator.key))
            } else {
                Some(registry.without_operator(self.operator.key))
            }
        } else {
            self.global_state.registry()
        }
    }
}

/// Adds `ctx.operator` to the operators, or takes it out.
///
/// Adding appends, also where the identity is an operator already.
/// Removing takes out every occurrence.
///
/// Refused with `Unauthorized` unless `ctx.admin` signed and is the
/// administrator, with `DerivationMismatch` where the registry does not
/// derive, and with `CapacityExceeded` where an operator is to be added
/// and the registry is full.
pub fn update_operator(ctx: &mut UpdateOperator, add: bool) -> (r: Result<(), CustomError>)
    ensures
        r == old(ctx).verdict(add),
        final(ctx).global_state.registry() == old(ctx).registry_after(add),
        final(ctx).global_state.key == old(ctx).global_state.key,
        final(ctx).admin == old(ctx).admin,
        final(ctx).operator == old(ctx).operator,
        r is Err ==> *final(ctx) == *old(ctx),
{
    match admit_administrator(&ctx.admin, &ctx.global_state) {
        Err(e) => Err(e),
        Ok(()) => {
            let operator = ctx.operator.key;
            match &mut ctx.global_state.data {
                Some(state) => {
                    if add {
                        state.add_operator(operator)
                    } else {
                        state.remove_operator(operator);
                        Ok(())
                    }
                },
                None => Err(CustomError::Unauthorized),
            }
        },
    }
}

/// What a native transfer of `amount` makes of two balances: that of the
/// vault it leaves and that of the recipient.  `same` says that the
/// recipient is the vault itself.
pub open spec fn lamports_moved(vault: u64, to: u64, same: bool, amount: u64) -> Result<
    (u64, u64),
    CustomError,
> {
    if amount > vault {
        Err(CustomError::InsufficientFunds)
    } else if same {
        Ok((vault, to))
    } else if to + amount > u64::MAX {
        Err(CustomError::LedgerError)
    } else {
        Ok(((vault - amount) as u64, (to + amount) as u64))
    }
}

/// Moves `amount` of native currency from `vault` to `to`, or refuses and
/// leaves both as they are.  Who asks is not looked at here.
pub fn move_lamports(vault: &mut VaultAccount, to: &mut AccountInfo, amount: u64) -> (r: Result<
    (),
    CustomError,
>)
    ensures
        match lamports_moved(
            old(vault).lamports,
            old(to).lamports,
            old(to).key == old(vault).key,
            amount,
        ) {
            Ok((left, raised)) => {
                &&& r == Ok::<(), CustomError>(())
                &&& *final(vault) == (VaultAccount { lamports: left, ..*old(vault) })
                &&& *final(to) == (AccountInfo { lamports: raised, ..*old(to) })
            },
            Err(e) => {
                &&& r == Err::<(), CustomError>(e)
                &&& *final(vault) == *old(vault)
                &&& *final(to) == *old(to)
            },
        },
{
    let left = match vault.lamports.checked_sub(amount) {
        Some(left) => left,
        None => {
            return Err(CustomError::InsufficientFunds);
        },
    };
    if to.key == vault.key {
        return Ok(());
    }
    let raised = match to.lamports.checked_add(amount) {
        Some(raised) => raised,
        None => {
            return Err(CustomError::LedgerError);
        },
    };
    vault.lamports = left;
    to.lamports = raised;
    Ok(())
}

impl TransferLamports {
    /// What the transfer makes of the two balances, or why it is not
    /// made.
    pub open spec fn balances(self, amount: u64) -> Result<(u64, u64), CustomError> {
        match owner_admission(self.user, self.user_vault) {
            Err(e) => Err(e),
            Ok(_) => lamports_moved(
                self.user_vault.lamports,
                self.to.lamports,
                self.to.key == self.user_vault.key,
                amount,
            ),
        }
    }

    /// Whether the transfer is made, or why not.
    pub open spec fn verdict(self, amount: u64) -> Result<(), CustomError> {
        match self.balances(amount) {
            Ok(_) => Ok(()),
            Err(e) => Err(e),
        }
    }

    /// The accounts afterwards.
    pub open spec fn after(self, amount: u64) -> TransferLamports {
        match self.balances(amount) {
            Ok((left, raised)) => TransferLamports {
                user_vault: VaultAccount { lamports: left, ..self.user_vault },
                to: AccountInfo { lamports: raised, ..self.to },
                ..self
            },
            Err(_) => self,
        }
    }
}

/// Moves `amount` of native currency out of the vault of `ctx.user` to
/// `ctx.to`.
///
/// On success the vault's balance is lower by `amount` and the
/// recipient's higher by `amount`.  Where the recipient is the vault
/// itself, both balances stay as they are.
///
/// Refused with `Unauthorized` unless `ctx.user` signed and owns the
/// vault, with `DerivationMismatch` where the vault does not derive from
/// its owner, with `InsufficientFunds` where `amount` exceeds the vault's
/// balance, and with `LedgerError` where the recipient's balance cannot
/// hold `amount` more.
pub fn transfer_lamports(ctx: &mut TransferLamports, amount: u64) -> (r: Result<(), CustomError>)
    ensures
        r == old(ctx).verdict(amount),
        *final(ctx) == old(ctx).after(amount),
{
    match admit_owner(&ctx.user, &ctx.user_vault) {
        Err(e) => Err(e),
        Ok(_) => move_lamports(&mut ctx.user_vault, &mut ctx.to, amount),
    }
}

impl TransferByOperator {
    /// The request that a transfer of `amount` makes, or why none is made.
    pub open spec fn request(self, amount: u64) -> Result<LedgerRequest, CustomError> {
        match operator_admission(self.operator, self.global_state, self.user, self.user_vault) {
            Err(e) => Err(e),
            Ok(authority) => Ok(
                LedgerRequest::Transfer {
                    from: self.from_token_account.key,
                    to: self.to_token_account.key,
                    mint: self.mint.key,
                    amount,
                    decimals: self.mint.decimals,
                    authority,
                },
            ),
        }
    }

    /// The request that a withdrawal of everything makes: a transfer of
    /// the balance that the source holds.
    pub open spec fn withdrawal(self) -> Result<LedgerRequest, CustomError> {
        self.request(self.from_token_account.amount)
    }
}

/// An operator moves `amount` of tokens out of a sub-account of the vault
/// of `ctx.user`.
///
/// Refused with `Unauthorized` unless `ctx.operator` signed and is an
/// operator of the registry, and with `DerivationMismatch` where the
/// registry or the vault does not derive.
pub fn transfer_by_operator(ctx: &TransferByOperator, amount: u64) -> (r: Result<
    LedgerInstruction,
    CustomError,
>)
    ensures
        requested(r) == ctx.request(amount),
        r matches Ok(instruction) ==> instruction@.authority().valid(),
{
    match admit_operator(&ctx.operator, &ctx.global_state, &ctx.user, &ctx.user_vault) {
        Err(e) => Err(e),
        Ok(authority) => Ok(
            token::transfer(
                &ctx.from_token_account,
                &ctx.to_token_account,
                authority,
                &ctx.mint,
                amount,
            ),
        ),
    }
}

/// An operator moves everything that a sub-account of the vault of
/// `ctx.user` holds.  The amount is the balance of the source as the
/// request finds it; the operator names none.
///
/// Refused as `transfer_by_operator` is.
pub fn withdraw_token_by_operator(ctx: &TransferByOperator) -> (r: Result<
    LedgerInstruction,
    CustomError,
>)
    ensures
        requested(r) == ctx.withdrawal(),
        r matches Ok(instruction) ==> instruction@.authority().valid(),
{
    match admit_operator(&ctx.operator, &ctx.global_state, &ctx.user, &ctx.user_vault) {
        Err(e) => Err(e),
        Ok(authority) => {
            let amount = ctx.from_token_account.amount;
            Ok(
                token::transfer(
                    &ctx.from_token_account,
                    &ctx.to_token_account,
                    authority,
                    &ctx.mint,
                    amount,
                ),
            )
        },
    }
}

impl CloseTokenAccountByOperator {
    /// The request that the closing makes, or why none is made.
    pub open spec fn request(self) -> Result<LedgerRequest, CustomError> {
        match operator_admission(self.operator, self.global_state, self.user, self.user_vault) {
            Err(e) => Err(e),
            Ok(authority) => Ok(
                LedgerRequest::Close {
                    account: self.token_account.key,
                    destination: self.destination.key,
                    authority,
                },
            ),
        }
    }
}

/// An operator closes a sub-account of the vault of `ctx.user`.  Whether a
/// sub-account that still holds tokens may be closed is the ledger's to
/// say.
///
/// Refused as `transfer_by_operator` is.
pub fn close_account_by_operator(ctx: &CloseTokenAccountByOperator) -> (r: Result<
    LedgerInstruction,
    CustomError,
>)
    ensures
        requested(r) == ctx.request(),
        r matches Ok(instruction) ==> instruction@.authority().valid(),
{
    match admit_operator(&ctx.operator, &ctx.global_state, &ctx.user, &ctx.user_vault) {
        Err(e) => Err(e),
        Ok(authority) => Ok(
            token::close_token_account(&ctx.token_account, &ctx.destination, authority),
        ),
    }
}

impl TransferToken {
    /// The request that a transfer of `amount` makes, or why none is made.
    pub open spec fn request(self, amount: u64) -> Result<LedgerRequest, CustomError> {
        match owner_admission(self.user, self.user_vault) {
            Err(e) => Err(e),
            Ok(authority) => Ok(
                LedgerRequest::Transfer {
                    from: self.from_token_account.key,
                    to: self.to_token_account.key,
                    mint: self.mint.key,
                    amount,
                    decimals: self.mint.decimals,
                    authority,
                },
            ),
        }
    }
}

/// The owner moves `amount` of tokens out of a sub-account of the vault.
///
/// Refused with `Unauthorized` unless `ctx.user` signed and owns the
/// vault, and with `DerivationMismatch` where the vault does not derive
/// from its owner.
pub fn transfer_token(ctx: &TransferToken, amount: u64) -> (r: Result<
    LedgerInstruction,
    CustomError,
>)
    ensures
        requested(r) == ctx.request(amount),
        r matches Ok(instruction) ==> instruction@.authority().valid(),
{
    match admit_owner(&ctx.user, &ctx.user_vault) {
        Err(e) => Err(e),
        Ok(authority) => Ok(
            token::transfer(
                &ctx.from_token_account,
                &ctx.to_token_account,
                authority,
                &ctx.mint,
                amount,
            ),
        ),
    }
}

impl CloseTokenAccount {
    /// The request that the closing makes, or why none is made.
    pub open spec fn request(self) -> Result<LedgerRequest, CustomError> {
        match owner_admission(self.user, self.user_vault) {
            Err(e) => Err(e),
            Ok(authority) => Ok(
                LedgerRequest::Close {
                    account: self.token_account.key,
                    destination: self.destination.key,
                    authority,
                },
            ),
        }
    }
}

/// The owner closes a sub-account of the vault.
///
/// Refused as `transfer_token` is.
pub fn close_token_account(ctx: &CloseTokenAccount) -> (r: Result<LedgerInstruction, CustomError>)
    ensures
        requested(r) == ctx.request(),
        r matches Ok(instruction) ==> instruction@.authority().valid(),
{
    match admit_owner(&ctx.user, &ctx.user_vault) {
        Err(e) => Err(e),
        Ok(authority) => Ok(
            token::close_token_account(&ctx.token_account, &ctx.destination, authority),
        ),
    }
}

impl ApproveToken {
    /// The request that the approval makes, or why none is made.
    pub open spec fn request(self, amount: u64) -> Result<LedgerRequest, CustomError> {
        match owner_admission(self.user, self.user_vault) {
            Err(e) => Err(e),
            Ok(authority) => Ok(
                LedgerRequest::Approve {
                    account: self.token_account.key,
                    delegate: self.delegate.key,
                    amount,
                    authority,
                },
            ),
        }
    }
}

/// The owner lets `ctx.delegate` spend up to `amount` out of a
/// sub-account of the vault.
///
/// Refused as `transfer_token` is.
pub fn approve_token(ctx: &ApproveToken, amount: u64) -> (r: Result<
    LedgerInstruction,
    CustomError,
>)
    ensures
        requested(r) == ctx.request(amount),
        r matches Ok(instruction) ==> instruction@.authority().valid(),
{
    match admit_owner(&ctx.user, &ctx.user_vault) {
        Err(e) => Err(e),
        Ok(authority) => Ok(
            token::approve_token(&ctx.token_account, &ctx.delegate, authority, amount),
        ),
    }
}

impl RevokeApproval {
    /// The request that the revocation makes, or why none is made.
    pub open spec fn request(self) -> Result<LedgerRequest, CustomError> {
        match owner_admission(self.user, self.user_vault) {
            Err(e) => Err(e),
            Ok(authority) => Ok(
                LedgerRequest::Revoke { account: self.token_account.key, authority },
            ),
        }
    }
}

/// The owner takes back the right to spend out of a sub-account of the
/// vault.  The request is made on the vault's authority; the delegate
/// that the accounts name has no part in it.
///
/// Refused as `transfer_token` is.
pub fn revoke_approval(ctx: &RevokeApproval) -> (r: Result<LedgerInstruction, CustomError>)
    ensures
        requested(r) == ctx.request(),
        r matches Ok(instruction) ==> instruction@.authority().valid(),
{
    match admit_owner(&ctx.user, &ctx.user_vault) {
        Err(e) => Err(e),
        Ok(authority) => Ok(token::revoke_approval(&ctx.token_account, authority)),
    }
}

} // verus!
