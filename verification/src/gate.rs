//! The authorization gate: who may ask for what.
//!
//! Every operation belongs to one of three classes, and admits one kind of
//! caller.  An owner-class operation admits the owner of the vault it
//! names.  An operator-class operation admits any operator of the
//! registry, on any vault.  An administrator-class operation admits the
//! administrator of the registry.  Authorization is decided first, and
//! its one refusal is `Unauthorized`.  Only for a caller that it lets
//! through are the records that the request names held against their
//! derivations.

use vstd::prelude::*;
use crate::accounts::{AccountInfo, RegistryAccount, VaultAccount};
use crate::derivation::{
    check_registry_address, derive_at, prove_vault_authority, registry_seeds, vault_seeds,
    Authority, AuthorityProof,
};
use crate::error::CustomError;
use crate::identity::Identity;

verus! {

/// `caller` signed, and is the owner in the record of `vault`.
pub open spec fn signed_by_owner(caller: AccountInfo, vault: VaultAccount) -> bool {
    &&& caller.is_signer
    &&& vault.data matches Some(record)
    &&& record.owner == caller.key
}

/// `caller` signed, and stands among the operators of `registry`.
pub open spec fn signed_by_operator(caller: AccountInfo, registry: RegistryAccount) -> bool {
    &&& caller.is_signer
    &&& registry.data matches Some(state)
    &&& state@.operators.contains(caller.key)
}

/// `caller` signed, and is the administrator of `registry`.
pub open spec fn signed_by_administrator(caller: AccountInfo, registry: RegistryAccount) -> bool {
    &&& caller.is_signer
    &&& registry.data matches Some(state)
    &&& state.admin == caller.key
}

/// The vault holds a record, and the disambiguator stored in it derives
/// the vault's identity from `owner`.
pub open spec fn vault_derives(vault: VaultAccount, owner: Identity) -> bool {
    &&& vault.data matches Some(record)
    &&& derive_at(vault_seeds(owner), record.bump) == Some(vault.key@)
}

/// The registry holds a record, and the disambiguator stored in it derives
/// the registry's identity.
pub open spec fn registry_derives(registry: RegistryAccount) -> bool {
    &&& registry.data matches Some(state)
    &&& derive_at(registry_seeds(), state.bump) == Some(registry.key@)
}

/// What an owner-class operation makes of its caller and vault: the
/// authority to act as the vault, or the reason for refusing.
pub open spec fn owner_admission(user: AccountInfo, vault: VaultAccount) -> Result<
    Authority,
    CustomError,
> {
    if !signed_by_owner(user, vault) {
        Err(CustomError::Unauthorized)
    } else if !vault_derives(vault, user.key) {
        Err(CustomError::DerivationMismatch)
    } else {
        Ok(Authority { vault: vault.key, owner: user.key, bump: vault.data->0.bump })
    }
}

/// What an operator-class operation makes of its caller, the registry,
/// and the vault of `user`.
pub open spec fn operator_admission(
    operator: AccountInfo,
    registry: RegistryAccount,
    user: AccountInfo,
    vault: VaultAccount,
) -> Result<Authority, CustomError> {
    if !signed_by_operator(operator, registry) {
        Err(CustomError::Unauthorized)
    } else if !registry_derives(registry) || !vault_derives(vault, user.key) {
        Err(CustomError::DerivationMismatch)
    } else {
        Ok(Authority { vault: vault.key, owner: user.key, bump: vault.data->0.bump })
    }
}

/// What an administrator-class operation makes of its caller and the
/// registry.
pub open spec fn administrator_admission(admin: AccountInfo, registry: RegistryAccount) -> Result<
    (),
    CustomError,
> {
    if !signed_by_administrator(admin, registry) {
        Err(CustomError::Unauthorized)
    } else if !registry_derives(registry) {
        Err(CustomError::DerivationMismatch)
    } else {
        Ok(())
    }
}

/// What a proof or a refusal says, as a mathematical value.
pub open spec fn claimed(r: Result<AuthorityProof, CustomError>) -> Result<Authority, CustomError> {
    match r {
        Ok(proof) => Ok(proof@),
        Err(e) => Err(e),
    }
}

/// Decides whether `caller` may ask for an owner-class operation.
pub fn authorize_owner(caller: &AccountInfo, vault: &VaultAccount) -> (r: Result<(), CustomError>)
    ensures
        r == if signed_by_owner(*caller, *vault) {
            Ok::<(), CustomError>(())
        } else {
            Err(CustomError::Unauthorized)
        },
{
    if !caller.is_signer {
        return Err(CustomError::Unauthorized);
    }
    match &vault.data {
        Some(record) => {
            if record.owner == caller.key {
                Ok(())
            } else {
                Err(CustomError::Unauthorized)
            }
        },
        None => Err(CustomError::Unauthorized),
    }
}

/// Decides whether `caller` may ask for an operator-class operation.
pub fn authorize_operator(caller: &AccountInfo, registry: &RegistryAccount) -> (r: Result<
    (),
    CustomError,
>)
    ensures
        r == if signed_by_operator(*caller, *registry) {
            Ok::<(), CustomError>(())
        } else {
            Err(CustomError::Unauthorized)
        },
{
    if !caller.is_signer {
        return Err(CustomError::Unauthorized);
    }
    match &registry.data {
        Some(state) => {
            if state.is_operator(&caller.key) {
                Ok(())
            } else {
                Err(CustomError::Unauthorized)
            }
        },
        None => Err(CustomError::Unauthorized),
    }
}

/// Decides whether `caller` may ask for an administrator-class operation.
pub fn authorize_administrator(caller: &AccountInfo, registry: &RegistryAccount) -> (r: Result<
    (),
    CustomError,
>)
    ensures
        r == if signed_by_administrator(*caller, *registry) {
            Ok::<(), CustomError>(())
        } else {
            Err(CustomError::Unauthorized)
        },
{
    if !caller.is_signer {
        return Err(CustomError::Unauthorized);
    }
    match &registry.data {
        Some(state) => {
            if state.admin == caller.key {
                Ok(())
            } else {
                Err(CustomError::Unauthorized)
            }
        },
        None => Err(CustomError::Unauthorized),
    }
}

/// Holds the vault against its derivation from `owner`, and gives the
/// authority to act as it.
pub fn vault_authority(vault: &VaultAccount, owner: &Identity) -> (r: Result<
    AuthorityProof,
    CustomError,
>)
    ensures
        claimed(r) == if vault_derives(*vault, *owner) {
            Ok::<Authority, CustomError>(
                Authority { vault: vault.key, owner: *owner, bump: vault.data->0.bump },
            )
        } else {
            Err(CustomError::DerivationMismatch)
        },
        r matches Ok(proof) ==> proof@.valid(),
{
    match &vault.data {
        Some(record) => prove_vault_authority(&vault.key, owner, record.bump),
        None => Err(CustomError::DerivationMismatch),
    }
}

/// Holds the registry against its derivation.
pub fn validate_registry(registry: &RegistryAccount) -> (r: Result<(), CustomError>)
    ensures
        r == if registry_derives(*registry) {
            Ok::<(), CustomError>(())
        } else {
            Err(CustomError::DerivationMismatch)
        },
{
    match &registry.data {
        Some(state) => check_registry_address(&registry.key, state.bump),
        None => Err(CustomError::DerivationMismatch),
    }
}

/// Admits the owner of `vault` to an owner-class operation.
pub fn admit_owner(user: &AccountInfo, vault: &VaultAccount) -> (r: Result<
    AuthorityProof,
    CustomError,
>)
    ensures
        claimed(r) == owner_admission(*user, *vault),
        r matches Ok(proof) ==> proof@.valid(),
{
    match authorize_owner(user, vault) {
        Ok(()) => vault_authority(vault, &user.key),
        Err(e) => Err(e),
    }
}

/// Admits an operator to an operator-class operation on the vault of
/// `user`.
pub fn admit_operator(
    operator: &AccountInfo,
    registry: &RegistryAccount,
    user: &AccountInfo,
    vault: &VaultAccount,
) -> (r: Result<AuthorityProof, CustomError>)
    ensures
        claimed(r) == operator_admission(*operator, *registry, *user, *vault),
        r matches Ok(proof) ==> proof@.valid(),
{
    match authorize_operator(operator, registry) {
        Ok(()) => match validate_registry(registry) {
            Ok(()) => vault_authority(vault, &user.key),
            Err(e) => Err(e),
        },
        Err(e) => Err(e),
    }
}

/// Admits the administrator to an administrator-class operation.
pub fn admit_administrator(admin: &AccountInfo, registry: &RegistryAccount) -> (r: Result<
    (),
    CustomError,
>)
    ensures
        r == administrator_admission(*admin, *registry),
{
    match authorize_administrator(admin, registry) {
        Ok(()) => validate_registry(registry),
        Err(e) => Err(e),
    }
}

} // verus!
