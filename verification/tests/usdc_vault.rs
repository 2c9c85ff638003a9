use anchor_lang::prelude::Pubkey;
use vault_programs::errors::{ConstraintError, Error, VaultError};
use vault_programs::spl_token::{deposit, withdraw, Deposit, Mint, TokenAccount, TokenTransfer, VaultBump, Withdraw};

const PROGRAM: [u8; 32] = [66; 32];

fn key(b: u8) -> [u8; 32] {
    [b; 32]
}

fn authority(user: &[u8; 32]) -> ([u8; 32], u8) {
    let (k, b) = Pubkey::find_program_address(&[b"vault", user], &Pubkey::new_from_array(PROGRAM));
    (k.to_bytes(), b)
}

fn deposit_accounts() -> Deposit {
    let user = key(1);
    let (vault, _) = authority(&user);
    let usdc = key(50);
    Deposit {
        user,
        user_token: TokenAccount { key: key(11), mint: usdc, owner: user },
        vault,
        vault_token: TokenAccount { key: key(12), mint: usdc, owner: vault },
        usdc_mint: Mint { key: usdc, decimals: 6 },
        token_program: key(99),
    }
}

fn withdraw_accounts() -> Withdraw {
    let d = deposit_accounts();
    Withdraw {
        user: d.user,
        user_token: d.user_token,
        vault: d.vault,
        vault_token: d.vault_token,
        usdc_mint: d.usdc_mint,
        token_program: d.token_program,
    }
}

#[test]
fn deposit_one_usdc() {
    let a = deposit_accounts();
    let (_, bump) = authority(&a.user);
    assert_eq!(a.validate(&PROGRAM), Ok(VaultBump { vault: bump }));
    assert_eq!(
        deposit(&a, 1_000_000),
        Ok(TokenTransfer {
            from: key(11),
            to: key(12),
            mint: key(50),
            authority: a.user,
            amount: 1_000_000,
            decimals: 6,
            signer_seeds: None,
        })
    );
}

#[test]
fn deposit_of_another_mint_is_refused() {
    let mut a = deposit_accounts();
    a.user_token.mint = key(51);
    assert_eq!(deposit(&a, 1_000_000), Err(Error::Vault(VaultError::InvalidMint)));
}

#[test]
fn deposit_from_someone_elses_token_account_is_refused() {
    let mut a = deposit_accounts();
    a.user_token.owner = key(2);
    assert_eq!(a.validate(&PROGRAM), Err(ConstraintError::ConstraintRaw));
}

#[test]
fn vault_token_not_owned_by_vault_is_refused() {
    let mut a = deposit_accounts();
    a.vault_token.owner = key(3);
    assert_eq!(a.validate(&PROGRAM), Err(ConstraintError::ConstraintRaw));
    let mut w = withdraw_accounts();
    w.vault_token.owner = key(3);
    assert_eq!(w.validate(&PROGRAM), Err(ConstraintError::ConstraintRaw));
}

#[test]
fn wrong_vault_address_is_refused() {
    let mut a = deposit_accounts();
    a.vault = key(4);
    a.vault_token.owner = key(4);
    assert_eq!(a.validate(&PROGRAM), Err(ConstraintError::ConstraintSeeds));
    let mut w = withdraw_accounts();
    w.vault = key(4);
    assert_eq!(w.validate(&PROGRAM), Err(ConstraintError::ConstraintSeeds));
}

#[test]
fn withdraw_one_usdc_with_vault_signing() {
    let w = withdraw_accounts();
    let b = w.validate(&PROGRAM).unwrap();
    let t = withdraw(&w, &b, 1_000_000);
    assert_eq!(t.from, key(12));
    assert_eq!(t.to, key(11));
    assert_eq!(t.authority, w.vault);
    assert_eq!(t.amount, 1_000_000);
    assert_eq!(t.decimals, 6);
    let seeds = t.signer_seeds.unwrap();
    assert_eq!(seeds, vec![b"vault".to_vec(), w.user.to_vec(), vec![b.vault]]);
    let refs: Vec<&[u8]> = seeds.iter().map(|s| s.as_slice()).collect();
    let derived = Pubkey::create_program_address(&refs, &Pubkey::new_from_array(PROGRAM)).unwrap();
    assert_eq!(derived.to_bytes(), w.vault);
}
