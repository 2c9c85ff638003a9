use anchor_lang::prelude::Pubkey;
use vault_programs::errors::{ConstraintError, CustomError, Error};
use vault_programs::system::AccountMeta;
use vault_programs::vault::{
    deposit, initialize, withdraw, withdraw_would_overflow, Deposit, DepositEvent, Initialize, Vault, VaultBump, Withdraw,
    WithdrawEvent,
};

const PROGRAM: [u8; 32] = [55; 32];

fn key(b: u8) -> [u8; 32] {
    [b; 32]
}

fn vault_address(user: &[u8; 32], id: u64) -> ([u8; 32], u8) {
    let (k, b) = Pubkey::find_program_address(&[b"vault", user, &id.to_le_bytes()], &Pubkey::new_from_array(PROGRAM));
    (k.to_bytes(), b)
}

#[test]
fn initialize_records_owner_and_id() {
    let user = key(1);
    let (addr, bump) = vault_address(&user, 3);
    let a = Initialize { vault: addr, user, system_program: [0; 32] };
    assert_eq!(a.validate(&PROGRAM, 3), Ok(VaultBump { vault: bump }));
    let mut v = Vault { owner: [0; 32], vault_id: 0 };
    initialize(&mut v, &a, 3);
    assert_eq!(v, Vault { owner: user, vault_id: 3 });
}

#[test]
fn vault_of_another_id_is_refused() {
    let user = key(1);
    let (addr, _) = vault_address(&user, 3);
    let a = Deposit { vault: addr, user, system_program: [0; 32] };
    assert_eq!(a.validate(&PROGRAM, 4), Err(ConstraintError::ConstraintSeeds));
    let b = Withdraw { vault: addr, user: key(2), system_program: [0; 32] };
    assert_eq!(b.validate(&PROGRAM, 3), Err(ConstraintError::ConstraintSeeds));
}

#[test]
fn deposit_transfers_into_vault() {
    let user = key(1);
    let (addr, _) = vault_address(&user, 3);
    let d = deposit(&Deposit { vault: addr, user, system_program: [0; 32] }, 1_000_000).unwrap();
    assert_eq!(d.event, DepositEvent { user, amount: 1_000_000 });
    let mut data = vec![2u8, 0, 0, 0];
    data.extend_from_slice(&1_000_000u64.to_le_bytes());
    assert_eq!(d.transfer.data, data);
    assert_eq!(d.transfer.program_id, [0u8; 32]);
    assert_eq!(
        d.transfer.accounts,
        vec![
            AccountMeta { key: user, is_signer: true, is_writable: true },
            AccountMeta { key: addr, is_signer: false, is_writable: true },
        ]
    );
}

#[test]
fn owned_vault_deposit_of_zero_is_refused() {
    let user = key(1);
    let (addr, _) = vault_address(&user, 3);
    assert_eq!(
        deposit(&Deposit { vault: addr, user, system_program: [0; 32] }, 0),
        Err(Error::Custom(CustomError::InvalidAmount))
    );
}

#[test]
fn owner_withdraws_by_moving_lamports() {
    let user = key(1);
    let (addr, _) = vault_address(&user, 3);
    let v = Vault { owner: user, vault_id: 3 };
    let a = Withdraw { vault: addr, user, system_program: [0; 32] };
    let mut vault_lamports: u64 = 2_000_000;
    let mut user_lamports: u64 = 5_000;
    let e = withdraw(&v, &a, &mut vault_lamports, &mut user_lamports, 1_000_000).unwrap();
    assert_eq!(e, WithdrawEvent { user, amount: 1_000_000 });
    assert_eq!(vault_lamports, 1_000_000);
    assert_eq!(user_lamports, 1_005_000);
    assert_eq!(v, Vault { owner: user, vault_id: 3 });
}

#[test]
fn withdraw_refusals_in_order() {
    let user = key(1);
    let (addr, _) = vault_address(&user, 3);
    let v = Vault { owner: user, vault_id: 3 };
    let stranger = Withdraw { vault: addr, user: key(2), system_program: [0; 32] };
    let owner = Withdraw { vault: addr, user, system_program: [0; 32] };
    let (mut vl, mut ul): (u64, u64) = (0, 7);
    assert_eq!(withdraw(&v, &stranger, &mut vl, &mut ul, 0), Err(Error::Custom(CustomError::Unauthorized)));
    assert_eq!(withdraw(&v, &owner, &mut vl, &mut ul, 0), Err(Error::Custom(CustomError::InvalidAmount)));
    vl = 999;
    assert_eq!(withdraw(&v, &owner, &mut vl, &mut ul, 1000), Err(Error::Custom(CustomError::InsufficientFunds)));
    assert_eq!((vl, ul), (999, 7));
    vl = 1000;
    assert!(withdraw(&v, &owner, &mut vl, &mut ul, 1000).is_ok());
    assert_eq!((vl, ul), (0, 1007));
}

#[test]
fn withdraw_overflow_is_detected() {
    let user = key(1);
    let (addr, _) = vault_address(&user, 3);
    let v = Vault { owner: user, vault_id: 3 };
    let owner = Withdraw { vault: addr, user, system_program: [0; 32] };
    let stranger = Withdraw { vault: addr, user: key(2), system_program: [0; 32] };
    assert!(withdraw_would_overflow(&v, &owner, 10, u64::MAX - 5, 6));
    assert!(!withdraw_would_overflow(&v, &owner, 10, u64::MAX - 5, 5));
    assert!(!withdraw_would_overflow(&v, &stranger, 10, u64::MAX, 6));
    assert!(!withdraw_would_overflow(&v, &owner, 5, u64::MAX, 6));
}
