//! What holds of the operations taken together.

use vstd::prelude::*;
use crate::accounts::{
    ApproveToken, CloseTokenAccount, CloseTokenAccountByOperator, CreateUserPDA,
    InitializeGlobalState, RegistryAccount, RevokeApproval, TransferByOperator,
    TransferLamports, TransferToken, UpdateAdmin, UpdateOperator, VaultAccount,
};
use crate::derivation::{
    canonical_bump, lemma_canonical_bump, lemma_canonical_unique, registry_seeds, vault_seeds,
};
use crate::error::CustomError;
use crate::gate::{
    administrator_admission, operator_admission, owner_admission, registry_derives,
    signed_by_administrator, signed_by_operator, signed_by_owner, vault_derives,
};
use crate::identity::lemma_identity_by_bytes;
use crate::ledger::LedgerRequest;
use crate::identity::Identity;
use crate::state::{
    lemma_removal_keeps_bound, lemma_removal_keeps_others, lemma_removed_is_absent,
    MAX_OPERATORS,
};

verus! {

/// A vault is created once.  Once a creation has succeeded, every further
/// creation that is handed the account as the first one left it is refused
/// with `AlreadyInitialized`, whoever asks and for whichever owner, and
/// the record stays as it is.
pub proof fn law_vault_created_once(first: CreateUserPDA, second: CreateUserPDA)
    requires
        first.verdict() is Ok,
        second.user_vault == (VaultAccount { data: first.record_after(), ..first.user_vault }),
    ensures
        second.verdict() == Err::<(), CustomError>(CustomError::AlreadyInitialized),
        second.record_after() == first.record_after(),
{
}

/// An owner has one vault.  Two creations for one owner that both succeed
/// were handed the account at one and the same identity, and leave the
/// same record in it.
pub proof fn law_one_vault_per_owner(first: CreateUserPDA, second: CreateUserPDA)
    requires
        first.owner.key == second.owner.key,
        first.verdict() is Ok,
        second.verdict() is Ok,
    ensures
        first.user_vault.key == second.user_vault.key,
        first.record_after() == second.record_after(),
{
    let seeds = vault_seeds(first.owner.key);
    let b1 = canonical_bump(seeds, first.user_vault.key@)->0;
    let b2 = canonical_bump(seeds, second.user_vault.key@)->0;
    lemma_canonical_bump(seeds, first.user_vault.key@, b1);
    lemma_canonical_bump(seeds, second.user_vault.key@, b2);
    lemma_canonical_unique(seeds, first.user_vault.key@, b1, second.user_vault.key@, b2);
    lemma_identity_by_bytes(first.user_vault.key, second.user_vault.key);
}

/// A vault that a creation has made derives from its owner: every later
/// operation can rebuild its authority from the record alone.
pub proof fn law_created_vault_derives(ctx: CreateUserPDA)
    requires
        ctx.verdict() is Ok,
    ensures
        vault_derives(
            VaultAccount { data: ctx.record_after(), ..ctx.user_vault },
            ctx.owner.key,
        ),
{
    let seeds = vault_seeds(ctx.owner.key);
    let bump = canonical_bump(seeds, ctx.user_vault.key@)->0;
    lemma_canonical_bump(seeds, ctx.user_vault.key@, bump);
}

/// A vault's record is written once.  No transfer out of the vault
/// touches it, whether the transfer is made or refused.
pub proof fn law_record_outlives_transfers(ctx: TransferLamports, amount: u64)
    ensures
        ctx.after(amount).user_vault.data == ctx.user_vault.data,
        ctx.after(amount).user_vault.key == ctx.user_vault.key,
        ctx.after(amount).user == ctx.user,
        ctx.after(amount).to.key == ctx.to.key,
{
}

/// The registry is created once.  A creation that is handed an account
/// which holds a registry is refused with `AlreadyInitialized`, and the
/// registry stays as it is.
pub proof fn law_registry_created_once(ctx: InitializeGlobalState)
    requires
        ctx.global_state.data is Some,
    ensures
        ctx.verdict() == Err::<(), CustomError>(CustomError::AlreadyInitialized),
        ctx.registry_after() == ctx.global_state.registry(),
{
}

/// A registry that a creation has made is administered by the identity
/// that was named, holds that identity as its one operator, and derives.
pub proof fn law_created_registry(ctx: InitializeGlobalState, made: RegistryAccount)
    requires
        ctx.verdict() is Ok,
        made.key == ctx.global_state.key,
        made.registry() == ctx.registry_after(),
    ensures
        made.registry() matches Some(registry) && registry.admin == ctx.admin.key
            && registry.operators == seq![ctx.admin.key] && registry.wf(),
        registry_derives(made),
{
    let bump = canonical_bump(registry_seeds(), ctx.global_state.key@)->0;
    lemma_canonical_bump(registry_seeds(), ctx.global_state.key@, bump);
}

/// Only the administrator changes the registry.  Asked by anyone else,
/// a change of administrator and a change to the operators are both
/// refused with `Unauthorized`, and the registry stays as it is.
pub proof fn law_registry_is_the_administrators(
    admin_change: UpdateAdmin,
    operator_change: UpdateOperator,
    add: bool,
)
    ensures
        !signed_by_administrator(admin_change.admin, admin_change.global_state) ==> {
            &&& admin_change.verdict() == Err::<(), CustomError>(CustomError::Unauthorized)
            &&& admin_change.registry_after() == admin_change.global_state.registry()
        },
        !signed_by_administrator(operator_change.admin, operator_change.global_state) ==> {
            &&& operator_change.verdict(add) == Err::<(), CustomError>(CustomError::Unauthorized)
            &&& operator_change.registry_after(add) == operator_change.global_state.registry()
        },
        admin_change.verdict() is Ok ==> signed_by_administrator(
            admin_change.admin,
            admin_change.global_state,
        ),
        operator_change.verdict(add) is Ok ==> signed_by_administrator(
            operator_change.admin,
            operator_change.global_state,
        ),
{
}

/// A registry, once made, is never unmade: whatever is asked of it, it
/// is there afterwards, under some administrator.
pub proof fn law_registry_is_never_unmade(
    creation: InitializeGlobalState,
    admin_change: UpdateAdmin,
    operator_change: UpdateOperator,
    add: bool,
)
    ensures
        creation.global_state.data is Some ==> creation.registry_after() is Some,
        admin_change.global_state.data is Some ==> admin_change.registry_after() is Some,
        operator_change.global_state.data is Some ==> operator_change.registry_after(add) is Some,
{
}

/// A change of administrator leaves the operators as they are.
pub proof fn law_new_administrator_keeps_operators(ctx: UpdateAdmin)
    requires
        ctx.verdict() is Ok,
    ensures
        ctx.registry_after() matches Some(after) && after.admin == ctx.new_admin.key
            && after.operators == ctx.global_state.registry()->0.operators,
{
}

/// Removal is exhaustive.  After a removal that succeeded, the operator
/// stands nowhere among the operators, however often it stood there.
pub proof fn law_removal_is_exhaustive(ctx: UpdateOperator)
    requires
        ctx.verdict(false) is Ok,
    ensures
        ctx.registry_after(false) matches Some(after) && !after.operators.contains(
            ctx.operator.key,
        ),
{
    lemma_removed_is_absent(ctx.global_state.data->0@, ctx.operator.key);
}

/// Removal of one operator spares every other: whoever else was an
/// operator before is one after, and nobody becomes one.
pub proof fn law_removal_spares_the_others(ctx: UpdateOperator, other: Identity)
    requires
        ctx.verdict(false) is Ok,
        other != ctx.operator.key,
    ensures
        ctx.registry_after(false)->0.operators.contains(other)
            == ctx.global_state.registry()->0.operators.contains(other),
{
    lemma_removal_keeps_others(ctx.global_state.data->0@, ctx.operator.key, other);
}

/// An operator that is added and then removed is absent.  This holds
/// whether the addition went through or was refused, and whether or not
/// the operator stood among the operators before.
pub proof fn law_added_then_removed_is_absent(addition: UpdateOperator, removal: UpdateOperator)
    requires
        removal.operator.key == addition.operator.key,
        removal.global_state.registry() == addition.registry_after(true),
        removal.verdict(false) is Ok,
    ensures
        removal.registry_after(false) matches Some(after) && !after.operators.contains(
            addition.operator.key,
        ),
{
    law_removal_is_exhaustive(removal);
}

/// A registry with five operators takes no sixth.  The addition is
/// refused with `CapacityExceeded` and the five stay.
pub proof fn law_sixth_operator_is_refused(ctx: UpdateOperator)
    requires
        administrator_admission(ctx.admin, ctx.global_state) is Ok,
        ctx.global_state.registry()->0.operators.len() == MAX_OPERATORS,
    ensures
        ctx.verdict(true) == Err::<(), CustomError>(CustomError::CapacityExceeded),
        ctx.registry_after(true) == ctx.global_state.registry(),
        ctx.registry_after(true)->0.operators.len() == 5,
{
}

/// No operation makes a registry hold more operators than it has room
/// for.
pub proof fn law_registry_stays_bounded(
    admin_change: UpdateAdmin,
    operator_change: UpdateOperator,
    add: bool,
)
    ensures
        (admin_change.global_state.registry() matches Some(before) && before.wf()) ==> (
        admin_change.registry_after() matches Some(after) && after.wf()),
        (operator_change.global_state.registry() matches Some(before) && before.wf()) ==> (
        operator_change.registry_after(add) matches Some(after) && after.wf()),
{
    if operator_change.global_state.data is Some {
        lemma_removal_keeps_bound(operator_change.global_state.data->0@, operator_change.operator.key);
    }
}

/// A withdrawal of everything moves the balance that the source holds
/// when the request is made, out of that source: no more, no less, and
/// no amount of the operator's choosing.
pub proof fn law_withdrawal_moves_the_balance(ctx: TransferByOperator)
    ensures
        ctx.withdrawal() matches Ok(request) ==> (request matches LedgerRequest::Transfer {
            from,
            to,
            amount,
            ..
        } && amount == ctx.from_token_account.amount && from == ctx.from_token_account.key && to
            == ctx.to_token_account.key),
{
}

/// An operator-class operation asked by anyone who is not an operator of
/// the registry is refused with `Unauthorized`, whatever vault it names
/// and however well that vault derives.
pub proof fn law_operator_class_is_the_operators(
    transfer: TransferByOperator,
    amount: u64,
    close: CloseTokenAccountByOperator,
)
    ensures
        !signed_by_operator(transfer.operator, transfer.global_state) ==> {
            &&& transfer.request(amount) == Err::<LedgerRequest, CustomError>(
                CustomError::Unauthorized,
            )
            &&& transfer.withdrawal() == Err::<LedgerRequest, CustomError>(
                CustomError::Unauthorized,
            )
        },
        !signed_by_operator(close.operator, close.global_state) ==> close.request() == Err::<
            LedgerRequest,
            CustomError,
        >(CustomError::Unauthorized),
{
}

/// An owner-class operation asked by anyone but the owner of the vault
/// is refused with `Unauthorized`.
pub proof fn law_owner_class_is_the_owners(
    native: TransferLamports,
    transfer: TransferToken,
    close: CloseTokenAccount,
    approve: ApproveToken,
    revoke: RevokeApproval,
    amount: u64,
)
    ensures
        !signed_by_owner(native.user, native.user_vault) ==> native.verdict(amount) == Err::<
            (),
            CustomError,
        >(CustomError::Unauthorized) && native.after(amount) == native,
        !signed_by_owner(transfer.user, transfer.user_vault) ==> transfer.request(amount)
            == Err::<LedgerRequest, CustomError>(CustomError::Unauthorized),
        !signed_by_owner(close.user, close.user_vault) ==> close.request() == Err::<
            LedgerRequest,
            CustomError,
        >(CustomError::Unauthorized),
        !signed_by_owner(approve.user, approve.user_vault) ==> approve.request(amount) == Err::<
            LedgerRequest,
            CustomError,
        >(CustomError::Unauthorized),
        !signed_by_owner(revoke.user, revoke.user_vault) ==> revoke.request() == Err::<
            LedgerRequest,
            CustomError,
        >(CustomError::Unauthorized),
{
}

/// A vault whose stored disambiguator does not regenerate its identity is
/// never acted as.  A caller that is authorized is refused with
/// `DerivationMismatch`, in every operation on the vault.
pub proof fn law_underived_vault_is_refused(
    native: TransferLamports,
    transfer: TransferToken,
    close: CloseTokenAccount,
    approve: ApproveToken,
    revoke: RevokeApproval,
    by_operator: TransferByOperator,
    close_by_operator: CloseTokenAccountByOperator,
    amount: u64,
)
    ensures
        signed_by_owner(native.user, native.user_vault) && !vault_derives(
            native.user_vault,
            native.user.key,
        ) ==> native.verdict(amount) == Err::<(), CustomError>(CustomError::DerivationMismatch)
            && native.after(amount) == native,
        signed_by_owner(transfer.user, transfer.user_vault) && !vault_derives(
            transfer.user_vault,
            transfer.user.key,
        ) ==> transfer.request(amount) == Err::<LedgerRequest, CustomError>(
            CustomError::DerivationMismatch,
        ),
        signed_by_owner(close.user, close.user_vault) && !vault_derives(
            close.user_vault,
            close.user.key,
        ) ==> close.request() == Err::<LedgerRequest, CustomError>(
            CustomError::DerivationMismatch,
        ),
        signed_by_owner(approve.user, approve.user_vault) && !vault_derives(
            approve.user_vault,
            approve.user.key,
        ) ==> approve.request(amount) == Err::<LedgerRequest, CustomError>(
            CustomError::DerivationMismatch,
        ),
        signed_by_owner(revoke.user, revoke.user_vault) && !vault_derives(
            revoke.user_vault,
            revoke.user.key,
        ) ==> revoke.request() == Err::<LedgerRequest, CustomError>(
            CustomError::DerivationMismatch,
        ),
        signed_by_operator(by_operator.operator, by_operator.global_state) && !vault_derives(
            by_operator.user_vault,
            by_operator.user.key,
        ) ==> by_operator.request(amount) == Err::<LedgerRequest, CustomError>(
            CustomError::DerivationMismatch,
        ) && by_operator.withdrawal() == Err::<LedgerRequest, CustomError>(
            CustomError::DerivationMismatch,
        ),
        signed_by_operator(close_by_operator.operator, close_by_operator.global_state)
            && !vault_derives(close_by_operator.user_vault, close_by_operator.user.key)
            ==> close_by_operator.request() == Err::<LedgerRequest, CustomError>(
            CustomError::DerivationMismatch,
        ),
{
}

/// Whoever is admitted acts on an authority whose claim is true, and that
/// names the vault and the owner of the request.
pub proof fn law_admission_proves_authority(
    transfer: TransferToken,
    by_operator: TransferByOperator,
)
    ensures
        owner_admission(transfer.user, transfer.user_vault) matches Ok(authority) ==> {
            &&& authority.valid()
            &&& authority.vault == transfer.user_vault.key
            &&& authority.owner == transfer.user_vault.data->0.owner
        },
        operator_admission(
            by_operator.operator,
            by_operator.global_state,
            by_operator.user,
            by_operator.user_vault,
        ) matches Ok(authority) ==> {
            &&& authority.valid()
            &&& authority.vault == by_operator.user_vault.key
            &&& authority.owner == by_operator.user.key
        },
{
}

/// A native transfer neither makes nor loses currency: what the vault
/// and the recipient hold together is the same before and after.
pub proof fn law_native_transfer_conserves(ctx: TransferLamports, amount: u64)
    ensures
        ctx.after(amount).user_vault.lamports + ctx.after(amount).to.lamports
            == ctx.user_vault.lamports + ctx.to.lamports,
        ctx.verdict(amount) is Ok && ctx.to.key != ctx.user_vault.key ==> {
            &&& ctx.after(amount).user_vault.lamports == ctx.user_vault.lamports - amount
            &&& ctx.after(amount).to.lamports == ctx.to.lamports + amount
        },
        ctx.verdict(amount) is Err ==> ctx.after(amount) == ctx,
{
}

} // verus!
