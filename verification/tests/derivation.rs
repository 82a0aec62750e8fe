use anchor_lang::prelude::Pubkey;
use raydium_automation::derivation::{
    check_canonical, check_derivation, derive_registry_address, derive_vault_address,
    find_registry_address, find_vault_address, id, prove_vault_authority, ID,
    PDA_GLOBAL_STATE_SEED, PDA_VAULT_SEED,
};
use raydium_automation::error::CustomError;
use raydium_automation::identity::Identity;
use std::str::FromStr;

const REGISTRY_KEY: [u8; 32] = [
    72, 76, 153, 235, 41, 92, 236, 9, 145, 26, 21, 242, 44, 167, 231, 165, 231, 37, 76, 164, 137,
    28, 112, 239, 18, 128, 199, 191, 138, 254, 33, 77,
];

const VAULT_OF_ONES: [u8; 32] = [
    63, 66, 204, 52, 227, 195, 113, 245, 250, 64, 62, 174, 112, 21, 191, 132, 10, 102, 214, 247,
    83, 43, 148, 34, 30, 223, 244, 36, 132, 224, 146, 233,
];

const VAULT_OF_SEVENS: [u8; 32] = [
    109, 238, 5, 45, 38, 11, 139, 25, 249, 115, 113, 77, 17, 184, 80, 77, 141, 64, 23, 29, 49, 21,
    183, 22, 63, 252, 41, 196, 23, 57, 105, 179,
];

fn program() -> Pubkey {
    Pubkey::from_str("6tgjvHkFUUUbbacEWg225H6AazxoSTso8ix9vkXFScTU").unwrap()
}

#[test]
fn program_id_is_the_declared_one() {
    assert_eq!(id().to_bytes(), program().to_bytes());
    assert_eq!(ID, program().to_bytes());
}

#[test]
fn tags_spell_their_names() {
    assert_eq!(&PDA_VAULT_SEED[..], b"userPdaVault");
    assert_eq!(&PDA_GLOBAL_STATE_SEED[..], b"globalState");
}

#[test]
fn identity_round_trips_its_bytes() {
    let id = Identity::new(VAULT_OF_ONES);
    assert_eq!(id.to_bytes(), VAULT_OF_ONES);
    assert_eq!(id.to_vec(), VAULT_OF_ONES.to_vec());
    assert_eq!(id, Identity::new(VAULT_OF_ONES));
    assert_ne!(id, Identity::new(VAULT_OF_SEVENS));
}

#[test]
fn identities_differ_in_one_byte() {
    let mut bytes = [9u8; 32];
    let a = Identity::new(bytes);
    bytes[31] = 8;
    let b = Identity::new(bytes);
    assert!(a != b);
    bytes[31] = 9;
    bytes[0] = 8;
    assert!(a != Identity::new(bytes));
}

#[test]
fn registry_search_gives_the_known_identity() {
    let (key, bump) = find_registry_address().unwrap();
    assert_eq!(key.to_bytes(), REGISTRY_KEY);
    assert_eq!(bump, 255);
}

#[test]
fn vault_search_gives_the_known_identity() {
    let (key, bump) = find_vault_address(&Identity::new([1u8; 32])).unwrap();
    assert_eq!(key.to_bytes(), VAULT_OF_ONES);
    assert_eq!(bump, 247);
    let (key, bump) = find_vault_address(&Identity::new([7u8; 32])).unwrap();
    assert_eq!(key.to_bytes(), VAULT_OF_SEVENS);
    assert_eq!(bump, 252);
}

#[test]
fn vault_search_agrees_with_the_ledgers_own() {
    for seed in 0u8..20 {
        let owner = [seed; 32];
        let (expected, expected_bump) =
            Pubkey::find_program_address(&[b"userPdaVault", &owner], &program());
        let (key, bump) = find_vault_address(&Identity::new(owner)).unwrap();
        assert_eq!(key.to_bytes(), expected.to_bytes());
        assert_eq!(bump, expected_bump);
    }
}

#[test]
fn search_settles_on_the_highest_disambiguator() {
    let owner = Identity::new([1u8; 32]);
    let (_, bump) = find_vault_address(&owner).unwrap();
    for above in (bump as u16 + 1)..=255 {
        assert!(derive_vault_address(&owner, above as u8).is_none());
    }
}

#[test]
fn derivation_regenerates_what_the_search_found() {
    let owner = Identity::new([7u8; 32]);
    let (key, bump) = find_vault_address(&owner).unwrap();
    assert_eq!(derive_vault_address(&owner, bump), Some(key));
    let (registry, registry_bump) = find_registry_address().unwrap();
    assert_eq!(derive_registry_address(registry_bump), Some(registry));
}

#[test]
fn derivation_depends_on_every_seed() {
    let owner = Identity::new([7u8; 32]);
    let (key, bump) = find_vault_address(&owner).unwrap();
    assert_ne!(derive_vault_address(&owner, bump - 1), Some(key));
    assert_ne!(derive_vault_address(&Identity::new([8u8; 32]), bump), Some(key));
    assert_ne!(derive_registry_address(bump), Some(key));
    assert_ne!(key, owner);
}

#[test]
fn derivation_is_the_same_every_time() {
    let owner = Identity::new([3u8; 32]);
    assert_eq!(find_vault_address(&owner), find_vault_address(&owner));
    assert_eq!(derive_vault_address(&owner, 200), derive_vault_address(&owner, 200));
}

#[test]
fn check_derivation_wants_the_expected_identity() {
    let a = Identity::new([1u8; 32]);
    let b = Identity::new([2u8; 32]);
    assert_eq!(check_derivation(Some(a), &a), Ok(()));
    assert_eq!(check_derivation(Some(b), &a), Err(CustomError::DerivationMismatch));
    assert_eq!(check_derivation(None, &a), Err(CustomError::DerivationMismatch));
}

#[test]
fn check_canonical_gives_the_disambiguator() {
    let a = Identity::new([1u8; 32]);
    let b = Identity::new([2u8; 32]);
    assert_eq!(check_canonical(Some((a, 250)), &a), Ok(250));
    assert_eq!(check_canonical(Some((b, 250)), &a), Err(CustomError::DerivationMismatch));
    assert_eq!(check_canonical(None, &a), Err(CustomError::DerivationMismatch));
}

#[test]
fn authority_is_proved_by_recomputation() {
    let owner = Identity::new([1u8; 32]);
    let vault = Identity::new(VAULT_OF_ONES);
    let proof = prove_vault_authority(&vault, &owner, 247).unwrap();
    assert_eq!(proof.vault(), vault);
    assert_eq!(proof.owner(), owner);
    assert_eq!(proof.bump(), 247);
    assert_eq!(
        proof.signer_seeds(),
        vec![b"userPdaVault".to_vec(), vec![1u8; 32], vec![247u8]]
    );
}

#[test]
fn signer_seeds_derive_the_vault() {
    let owner = Identity::new([7u8; 32]);
    let vault = Identity::new(VAULT_OF_SEVENS);
    let proof = prove_vault_authority(&vault, &owner, 252).unwrap();
    let seeds = proof.signer_seeds();
    let parts: Vec<&[u8]> = seeds.iter().map(|seed| seed.as_slice()).collect();
    let derived = Pubkey::create_program_address(&parts, &program()).unwrap();
    assert_eq!(derived.to_bytes(), VAULT_OF_SEVENS);
}

#[test]
fn authority_is_refused_on_a_mismatch() {
    let owner = Identity::new([1u8; 32]);
    let vault = Identity::new(VAULT_OF_ONES);
    let wrong_bump = prove_vault_authority(&vault, &owner, 246);
    assert!(matches!(wrong_bump, Err(CustomError::DerivationMismatch)));
    let wrong_owner = prove_vault_authority(&vault, &Identity::new([2u8; 32]), 247);
    assert!(matches!(wrong_owner, Err(CustomError::DerivationMismatch)));
    let wrong_vault = prove_vault_authority(&Identity::new(VAULT_OF_SEVENS), &owner, 247);
    assert!(matches!(wrong_vault, Err(CustomError::DerivationMismatch)));
    let on_curve = prove_vault_authority(&vault, &owner, 255);
    assert!(matches!(on_curve, Err(CustomError::DerivationMismatch)));
}

#[test]
fn error_messages() {
    assert_eq!(CustomError::Unauthorized.message(), "Unauthorized error");
    assert_ne!(CustomError::CapacityExceeded.message(), CustomError::Unauthorized.message());
}
