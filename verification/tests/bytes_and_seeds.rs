use anchor_lang::prelude::Pubkey;
use vault_programs::bytes::{is_zero_key, key_to_vec, keys_equal, u64_le_bytes};
use vault_programs::errors::ConstraintError;
use vault_programs::pda::{
    check_seeds, owned_vault_seeds, treasury_seeds, user_vault_authority_seeds, user_vault_seeds,
    vault_seeds, verify_derived_address, with_bump,
};

fn key(b: u8) -> [u8; 32] {
    [b; 32]
}

fn find(seeds: &[&[u8]], program: &[u8; 32]) -> ([u8; 32], u8) {
    let (k, b) = Pubkey::find_program_address(seeds, &Pubkey::new_from_array(*program));
    (k.to_bytes(), b)
}

#[test]
fn keys_equal_compares_every_byte() {
    let a = key(7);
    let mut b = key(7);
    assert!(keys_equal(&a, &b));
    b[31] = 8;
    assert!(!keys_equal(&a, &b));
    b[31] = 7;
    b[0] = 0;
    assert!(!keys_equal(&a, &b));
}

#[test]
fn zero_key_is_the_default_pubkey() {
    assert!(is_zero_key(&Pubkey::default().to_bytes()));
    let mut k = [0u8; 32];
    k[17] = 1;
    assert!(!is_zero_key(&k));
}

#[test]
fn key_to_vec_keeps_the_bytes() {
    let mut k = [0u8; 32];
    for (i, b) in k.iter_mut().enumerate() {
        *b = i as u8;
    }
    assert_eq!(key_to_vec(&k), k.to_vec());
}

#[test]
fn le_bytes_match_std() {
    for x in [0u64, 1, 255, 256, 0x0102_0304_0506_0708, u64::MAX, 42] {
        assert_eq!(u64_le_bytes(x), x.to_le_bytes().to_vec());
    }
}

#[test]
fn seeds_have_the_declared_shape() {
    let user = key(3);
    let vault = key(4);
    assert_eq!(user_vault_authority_seeds(&user), vec![b"vault".to_vec(), user.to_vec()]);
    assert_eq!(
        owned_vault_seeds(&user, 9),
        vec![b"vault".to_vec(), user.to_vec(), 9u64.to_le_bytes().to_vec()]
    );
    assert_eq!(vault_seeds(513), vec![b"vault".to_vec(), 513u64.to_le_bytes().to_vec()]);
    assert_eq!(
        treasury_seeds(513),
        vec![b"vault_treasury".to_vec(), 513u64.to_le_bytes().to_vec()]
    );
    assert_eq!(
        user_vault_seeds(&user, &vault),
        vec![b"user_vault".to_vec(), user.to_vec(), vault.to_vec()]
    );
    assert_eq!(
        with_bump(vault_seeds(1), 254),
        vec![b"vault".to_vec(), 1u64.to_le_bytes().to_vec(), vec![254u8]]
    );
}

#[test]
fn derived_address_is_accepted_with_its_bump() {
    let program = key(9);
    let user = key(1);
    let (addr, bump) = find(&[b"vault", &user], &program);
    assert_eq!(verify_derived_address(&user_vault_authority_seeds(&user), &program, &addr), Ok(bump));
}

#[test]
fn other_address_is_refused() {
    let program = key(9);
    let user = key(1);
    let other = key(2);
    assert_eq!(
        verify_derived_address(&user_vault_authority_seeds(&user), &program, &other),
        Err(ConstraintError::ConstraintSeeds)
    );
}

#[test]
fn too_many_seeds_find_nothing() {
    let program = key(9);
    let seeds: Vec<Vec<u8>> = (0..16u8).map(|i| vec![i]).collect();
    assert_eq!(verify_derived_address(&seeds, &program, &key(0)), Err(ConstraintError::ConstraintSeeds));
}

#[test]
fn check_seeds_cases() {
    let k = key(5);
    assert_eq!(check_seeds(Some((k, 200)), &k), Ok(200));
    assert_eq!(check_seeds(Some((k, 200)), &key(6)), Err(ConstraintError::ConstraintSeeds));
    assert_eq!(check_seeds(None, &k), Err(ConstraintError::ConstraintSeeds));
}
