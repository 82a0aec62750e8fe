//! Key-less identities: derived from seeds, proved by recomputation.
//!
//! An identity derived from a tag, an owner and a one-byte disambiguator has
//! no private key.  Whoever can present the same seeds, and have them derive
//! the identity again, controls it.  Nothing here stores a key, and nothing
//! searches for a disambiguator once a record holds one.

use vstd::prelude::*;
use anchor_lang::prelude::Pubkey;
use crate::error::CustomError;
use crate::identity::{lemma_identity_by_bytes, Identity};

verus! {

/// Tag of every vault derivation: the bytes of `userPdaVault`.
pub const PDA_VAULT_SEED: [u8; 12] = [117, 115, 101, 114, 80, 100, 97, 86, 97, 117, 108, 116];

/// Tag of the registry derivation: the bytes of `globalState`.
pub const PDA_GLOBAL_STATE_SEED: [u8; 11] = [103, 108, 111, 98, 97, 108, 83, 116, 97, 116, 101];

/// The program under which every identity here is derived
/// (`6tgjvHkFUUUbbacEWg225H6AazxoSTso8ix9vkXFScTU`).
pub const ID: [u8; 32] = [
    87, 135, 253, 114, 186, 188, 252, 197, 40, 130, 81, 201, 114, 187, 246, 57,
    142, 202, 209, 30, 60, 45, 172, 28, 31, 173, 129, 198, 245, 243, 114, 179,
];

/// The address that `Pubkey::create_program_address` computes from `seeds`
/// under `program`, or `None` where it reports an error.
pub uninterp spec fn derived_address(seeds: Seq<Seq<u8>>, program: Seq<u8>) -> Option<Seq<u8>>;

/// `seeds` followed by the one-byte seed `bump`.
pub open spec fn with_bump(seeds: Seq<Seq<u8>>, bump: u8) -> Seq<Seq<u8>> {
    seeds.push(seq![bump])
}

/// The identity that `seeds` and `bump` derive under this program, if any.
pub open spec fn derive_at(seeds: Seq<Seq<u8>>, bump: u8) -> Option<Seq<u8>> {
    derived_address(with_bump(seeds, bump), ID@)
}

/// The seeds of the vault of `owner`.
pub open spec fn vault_seeds(owner: Identity) -> Seq<Seq<u8>> {
    seq![PDA_VAULT_SEED@, owner@]
}

/// The seeds of the registry.
pub open spec fn registry_seeds() -> Seq<Seq<u8>> {
    seq![PDA_GLOBAL_STATE_SEED@]
}

/// `bump` is the disambiguator that a search settles on for `seeds`, and
/// `key` the identity it derives: the highest byte from 255 down to 1 that
/// derives any identity at all.
pub open spec fn is_canonical(seeds: Seq<Seq<u8>>, key: Seq<u8>, bump: u8) -> bool {
    &&& 1 <= bump
    &&& derive_at(seeds, bump) == Some(key)
    &&& forall|b: u8| bump < b ==> (#[trigger] derive_at(seeds, b)) is None
}

/// No disambiguator from 255 down to 1 derives an identity from `seeds`.
pub open spec fn underivable(seeds: Seq<Seq<u8>>) -> bool {
    forall|b: u8| 1 <= b ==> (#[trigger] derive_at(seeds, b)) is None
}

/// The disambiguator under which a search from `seeds` arrives at `key`.
pub open spec fn canonical_bump(seeds: Seq<Seq<u8>>, key: Seq<u8>) -> Option<u8> {
    if exists|b: u8| is_canonical(seeds, key, b) {
        Some(choose|b: u8| is_canonical(seeds, key, b))
    } else {
        None
    }
}

/// A search settles on one disambiguator and one identity.
pub proof fn lemma_canonical_unique(seeds: Seq<Seq<u8>>, k1: Seq<u8>, b1: u8, k2: Seq<u8>, b2: u8)
    requires
        is_canonical(seeds, k1, b1),
        is_canonical(seeds, k2, b2),
    ensures
        b1 == b2,
        k1 == k2,
{
    if b1 < b2 {
        assert(derive_at(seeds, b2) is None);
    } else if b2 < b1 {
        assert(derive_at(seeds, b1) is None);
    }
}

/// `canonical_bump` names the disambiguator of a search, and no other.
pub proof fn lemma_canonical_bump(seeds: Seq<Seq<u8>>, key: Seq<u8>, bump: u8)
    ensures
        is_canonical(seeds, key, bump) <==> canonical_bump(seeds, key) == Some(bump),
{
    if is_canonical(seeds, key, bump) {
        let chosen = choose|b: u8| is_canonical(seeds, key, b);
        lemma_canonical_unique(seeds, key, bump, key, chosen);
    }
}

/// The program's identity.
pub fn id() -> (program: Identity)
    ensures
        program@ == ID@,
{
    Identity::new(ID)
}

/// Calls `Pubkey::create_program_address` on `seeds` and `program`.
///
/// Believed, not proved: the call is a function of its two arguments, so
/// its outcome is `derived_address` of them, an error of any kind standing
/// as `None`.
#[verifier::external_body]
fn create_program_address(seeds: &Vec<Vec<u8>>, program: &Identity) -> (derived: Option<Identity>)
    ensures
        match derived {
            Some(key) => derived_address(seeds.deep_view(), program@) == Some(key@),
            None => derived_address(seeds.deep_view(), program@) is None,
        },
{
    let parts: Vec<&[u8]> = seeds.iter().map(|seed| seed.as_slice()).collect();
    match Pubkey::create_program_address(&parts, &Pubkey::new_from_array(program.bytes)) {
        Ok(key) => Some(Identity { bytes: key.to_bytes() }),
        Err(_) => None,
    }
}

/// Calls `Pubkey::try_find_program_address` on `seeds` and `program`.
///
/// Believed, not proved: the call appends a one-byte seed to `seeds`, tries
/// the bytes from 255 down to 1 with `Pubkey::create_program_address`, and
/// returns the first address that comes out with the byte that gave it.  It
/// returns `None` where no byte from 255 down to 1 gives an address.
#[verifier::external_body]
fn try_find_program_address(seeds: &Vec<Vec<u8>>, program: &Identity) -> (found: Option<(Identity, u8)>)
    ensures
        match found {
            Some((key, bump)) => {
                &&& 1 <= bump
                &&& derived_address(seeds.deep_view().push(seq![bump]), program@) == Some(key@)
                &&& forall|b: u8| bump < b ==>
                    (#[trigger] derived_address(seeds.deep_view().push(seq![b]), program@)) is None
            },
            None => forall|b: u8| 1 <= b ==>
                (#[trigger] derived_address(seeds.deep_view().push(seq![b]), program@)) is None,
        },
{
    let parts: Vec<&[u8]> = seeds.iter().map(|seed| seed.as_slice()).collect();
    match Pubkey::try_find_program_address(&parts, &Pubkey::new_from_array(program.bytes)) {
        Some((key, bump)) => Some((Identity { bytes: key.to_bytes() }, bump)),
        None => None,
    }
}

/// The bytes of a seed, as the seed list wants them.
fn seed_of(bytes: &[u8]) -> (seed: Vec<u8>)
    ensures
        seed.deep_view() == bytes@,
{
    let seed = vstd::slice::slice_to_vec(bytes);
    assert(seed.deep_view() =~= seed@);
    seed
}

/// The seed list of the vault of `owner`.
fn vault_seed_list(owner: &Identity) -> (seeds: Vec<Vec<u8>>)
    ensures
        seeds.deep_view() == vault_seeds(*owner),
{
    let mut seeds: Vec<Vec<u8>> = Vec::new();
    seeds.push(seed_of(PDA_VAULT_SEED.as_slice()));
    seeds.push(seed_of(owner.bytes.as_slice()));
    assert(seeds.deep_view() =~= vault_seeds(*owner));
    seeds
}

/// The seed list of the registry.
fn registry_seed_list() -> (seeds: Vec<Vec<u8>>)
    ensures
        seeds.deep_view() == registry_seeds(),
{
    let mut seeds: Vec<Vec<u8>> = Vec::new();
    seeds.push(seed_of(PDA_GLOBAL_STATE_SEED.as_slice()));
    assert(seeds.deep_view() =~= registry_seeds());
    seeds
}

/// Appends the one-byte seed `bump` to `seeds`.
fn push_bump(seeds: &mut Vec<Vec<u8>>, bump: u8)
    ensures
        final(seeds).deep_view() == with_bump(old(seeds).deep_view(), bump),
{
    let mut last: Vec<u8> = Vec::new();
    last.push(bump);
    assert(last.deep_view() =~= seq![bump]);
    seeds.push(last);
    assert(seeds.deep_view() =~= with_bump(old(seeds).deep_view(), bump));
}

/// What a derivation yields, as bytes.
pub open spec fn bytes_of(derived: Option<Identity>) -> Option<Seq<u8>> {
    match derived {
        Some(key) => Some(key@),
        None => None,
    }
}

/// Derives the identity of the vault of `owner` under the disambiguator
/// `bump`.  `None` where these seeds derive no identity.
pub fn derive_vault_address(owner: &Identity, bump: u8) -> (derived: Option<Identity>)
    ensures
        bytes_of(derived) == derive_at(vault_seeds(*owner), bump),
{
    let mut seeds = vault_seed_list(owner);
    push_bump(&mut seeds, bump);
    create_program_address(&seeds, &id())
}

/// Derives the identity of the registry under the disambiguator `bump`.
/// `None` where these seeds derive no identity.
pub fn derive_registry_address(bump: u8) -> (derived: Option<Identity>)
    ensures
        bytes_of(derived) == derive_at(registry_seeds(), bump),
{
    let mut seeds = registry_seed_list();
    push_bump(&mut seeds, bump);
    create_program_address(&seeds, &id())
}

/// Searches for the identity of the vault of `owner` and its disambiguator.
pub fn find_vault_address(owner: &Identity) -> (found: Option<(Identity, u8)>)
    ensures
        match found {
            Some((key, bump)) => is_canonical(vault_seeds(*owner), key@, bump),
            None => underivable(vault_seeds(*owner)),
        },
{
    let seeds = vault_seed_list(owner);
    try_find_program_address(&seeds, &id())
}

/// Searches for the identity of the registry and its disambiguator.
pub fn find_registry_address() -> (found: Option<(Identity, u8)>)
    ensures
        match found {
            Some((key, bump)) => is_canonical(registry_seeds(), key@, bump),
            None => underivable(registry_seeds()),
        },
{
    let seeds = registry_seed_list();
    try_find_program_address(&seeds, &id())
}

/// Holds a derivation against the identity it was expected to give.
pub fn check_derivation(derived: Option<Identity>, expected: &Identity) -> (r: Result<(), CustomError>)
    ensures
        r == if derived == Some(*expected) {
            Ok::<(), CustomError>(())
        } else {
            Err(CustomError::DerivationMismatch)
        },
{
    match derived {
        Some(key) => {
            if key == *expected {
                Ok(())
            } else {
                Err(CustomError::DerivationMismatch)
            }
        },
        None => Err(CustomError::DerivationMismatch),
    }
}

/// Holds the outcome of a search against the identity at which a record is
/// to be created.  Gives the disambiguator to store in the record.
pub fn check_canonical(found: Option<(Identity, u8)>, expected: &Identity) -> (r: Result<u8, CustomError>)
    ensures
        r == match found {
            Some((key, bump)) if key == *expected => Ok::<u8, CustomError>(bump),
            _ => Err(CustomError::DerivationMismatch),
        },
{
    match found {
        Some((key, bump)) => {
            if key == *expected {
                Ok(bump)
            } else {
                Err(CustomError::DerivationMismatch)
            }
        },
        None => Err(CustomError::DerivationMismatch),
    }
}

/// What an authority proof claims: that `vault` is the identity that the
/// vault tag, `owner` and `bump` derive.
#[derive(Clone, Copy, Debug)]
pub struct Authority {
    pub vault: Identity,
    pub owner: Identity,
    pub bump: u8,
}

impl Authority {
    /// The claim is true: the seeds derive the vault's identity.
    pub open spec fn valid(self) -> bool {
        derive_at(vault_seeds(self.owner), self.bump) == Some(self.vault@)
    }
}

/// The right to act as a vault towards the ledger, for one request.
///
/// A proof is made only by `prove_vault_authority`, after the derivation
/// has been recomputed and has given the vault's identity.  It cannot be
/// copied.  Its claim is therefore true wherever a proof exists.
#[derive(Debug)]
pub struct AuthorityProof {
    claim: Authority,
}

impl View for AuthorityProof {
    type V = Authority;

    closed spec fn view(&self) -> Authority {
        self.claim
    }
}

impl AuthorityProof {
    #[verifier::type_invariant]
    spec fn sound(&self) -> bool {
        self.claim.valid()
    }

    /// The identity that this proof lets its holder act as.
    pub fn vault(&self) -> (vault: Identity)
        ensures
            vault == self@.vault,
    {
        self.claim.vault
    }

    /// The owner of the vault.
    pub fn owner(&self) -> (owner: Identity)
        ensures
            owner == self@.owner,
    {
        self.claim.owner
    }

    /// The disambiguator of the vault.
    pub fn bump(&self) -> (bump: u8)
        ensures
            bump == self@.bump,
    {
        self.claim.bump
    }

    /// The seeds that the ledger needs to accept the vault as a signer:
    /// the vault tag, the owner and the disambiguator, in this order.
    /// They derive the vault's identity.
    pub fn signer_seeds(&self) -> (seeds: Vec<Vec<u8>>)
        ensures
            seeds.deep_view() == with_bump(vault_seeds(self@.owner), self@.bump),
            derived_address(seeds.deep_view(), ID@) == Some(self@.vault@),
            self@.valid(),
    {
        proof {
            use_type_invariant(self);
        }
        let mut seeds = vault_seed_list(&self.claim.owner);
        push_bump(&mut seeds, self.claim.bump);
        seeds
    }
}

/// Rebuilds the authority of the vault at `vault` from the owner and the
/// disambiguator stored in its record.  Nothing is searched for: the
/// derivation is recomputed once and must give `vault`.
pub fn prove_vault_authority(vault: &Identity, owner: &Identity, bump: u8) -> (r: Result<
    AuthorityProof,
    CustomError,
>)
    ensures
        match r {
            Ok(proof) => proof@ == (Authority { vault: *vault, owner: *owner, bump })
                && proof@.valid(),
            Err(e) => e == CustomError::DerivationMismatch && !(Authority {
                vault: *vault,
                owner: *owner,
                bump,
            }).valid(),
        },
{
    let derived = derive_vault_address(owner, bump);
    proof {
        if derived is Some {
            lemma_identity_by_bytes(derived.unwrap(), *vault);
        }
    }
    match check_derivation(derived, vault) {
        Ok(()) => Ok(AuthorityProof { claim: Authority { vault: *vault, owner: *owner, bump } }),
        Err(e) => Err(e),
    }
}

/// Whether the registry's identity `registry` derives from the registry
/// tag and the disambiguator `bump`.
pub fn check_registry_address(registry: &Identity, bump: u8) -> (r: Result<(), CustomError>)
    ensures
        r == if derive_at(registry_seeds(), bump) == Some(registry@) {
            Ok::<(), CustomError>(())
        } else {
            Err(CustomError::DerivationMismatch)
        },
{
    let derived = derive_registry_address(bump);
    proof {
        if derived is Some {
            lemma_identity_by_bytes(derived.unwrap(), *registry);
        }
    }
    check_derivation(derived, registry)
}

} // verus!
