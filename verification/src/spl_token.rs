//! A USDC vault: a user's tokens sit in a token account whose authority is the
//! derived address `["vault", user]`; deposits move tokens of the vault's mint
//! in, withdrawals move them out with the derived address signing.

use vstd::prelude::*;

use crate::bytes::{keys_equal, Key};
use crate::errors::{ConstraintError, Error};
pub use crate::errors::VaultError;
use crate::pda::{program_address, seed_bytes, seeds_outcome, user_vault_authority_seed_list, user_vault_authority_seeds, verify_derived_address, with_bump};

verus! {

/// What the programs read of a token account: its key, its mint and its owner.
#[derive(Debug, Clone, Copy, PartialEq, Eq)]
pub struct TokenAccount {
    pub key: Key,
    pub mint: Key,
    pub owner: Key,
}

/// What the programs read of a mint: its key and its decimals.
#[derive(Debug, Clone, Copy, PartialEq, Eq)]
pub struct Mint {
    pub key: Key,
    pub decimals: u8,
}

/// The accounts of `deposit`.
#[derive(Debug, Clone, Copy, PartialEq, Eq)]
pub struct Deposit {
    pub user: Key,
    pub user_token: TokenAccount,
    pub vault: Key,
    pub vault_token: TokenAccount,
    pub usdc_mint: Mint,
    pub token_program: Key,
}

/// The accounts of `withdraw`.
#[derive(Debug, Clone, Copy, PartialEq, Eq)]
pub struct Withdraw {
    pub user: Key,
    pub user_token: TokenAccount,
    pub vault: Key,
    pub vault_token: TokenAccount,
    pub usdc_mint: Mint,
    pub token_program: Key,
}

/// The bump seed of the vault authority's derived address.
#[derive(Debug, Clone, Copy, PartialEq, Eq)]
pub struct VaultBump {
    pub vault: u8,
}

/// A checked token transfer for the token program: `amount` of `mint` (with
/// `decimals`) from `from` to `to`, authorised by `authority`, which is a
/// derived address signing with `signer_seeds` when those are given.
#[derive(Debug, PartialEq, Eq)]
pub struct TokenTransfer {
    pub from: Key,
    pub to: Key,
    pub mint: Key,
    pub authority: Key,
    pub amount: u64,
    pub decimals: u8,
    pub signer_seeds: Option<Vec<Vec<u8>>>,
}

/// The constraints of `deposit`, in the order they are checked: the user owns
/// the source token account; the vault is at `["vault", user]`; the vault owns
/// the vault's token account.
pub open spec fn deposit_constraints(a: Deposit, program_id: Seq<u8>) -> Result<VaultBump, ConstraintError> {
    if a.user_token.owner@ != a.user@ {
        Err(ConstraintError::ConstraintRaw)
    } else {
        match seeds_outcome(program_address(user_vault_authority_seed_list(a.user@), program_id), a.vault@) {
            Err(e) => Err(e),
            Ok(b) => if a.vault_token.owner@ != a.vault@ {
                Err(ConstraintError::ConstraintRaw)
            } else {
                Ok(VaultBump { vault: b })
            },
        }
    }
}

/// The constraints of `withdraw`, in the order they are checked: the vault is
/// at `["vault", user]`; the vault owns the vault's token account.
pub open spec fn withdraw_constraints(a: Withdraw, program_id: Seq<u8>) -> Result<VaultBump, ConstraintError> {
    match seeds_outcome(program_address(user_vault_authority_seed_list(a.user@), program_id), a.vault@) {
        Err(e) => Err(e),
        Ok(b) => if a.vault_token.owner@ != a.vault@ {
            Err(ConstraintError::ConstraintRaw)
        } else {
            Ok(VaultBump { vault: b })
        },
    }
}

impl Deposit {
    /// Checks the accounts' constraints and gives the vault's bump seed.
    pub fn validate(&self, program_id: &Key) -> (r: Result<VaultBump, ConstraintError>)
        ensures
            r == deposit_constraints(*self, program_id@),
    {
        if !keys_equal(&self.user_token.owner, &self.user) {
            return Err(ConstraintError::ConstraintRaw);
        }
        let b = verify_derived_address(&user_vault_authority_seeds(&self.user), program_id, &self.vault)?;
        if !keys_equal(&self.vault_token.owner, &self.vault) {
            return Err(ConstraintError::ConstraintRaw);
        }
        Ok(VaultBump { vault: b })
    }
}

impl Withdraw {
    /// Checks the accounts' constraints and gives the vault's bump seed.
    pub fn validate(&self, program_id: &Key) -> (r: Result<VaultBump, ConstraintError>)
        ensures
            r == withdraw_constraints(*self, program_id@),
    {
        let b = verify_derived_address(&user_vault_authority_seeds(&self.user), program_id, &self.vault)?;
        if !keys_equal(&self.vault_token.owner, &self.vault) {
            return Err(ConstraintError::ConstraintRaw);
        }
        Ok(VaultBump { vault: b })
    }
}

/// Deposits `amount` tokens from the user's token account into the vault's,
/// authorised by the user; refuses a source account of another mint.
pub fn deposit(accounts: &Deposit, amount: u64) -> (r: Result<TokenTransfer, Error>)
    ensures
        accounts.user_token.mint@ != accounts.usdc_mint.key@ ==> r == Err::<TokenTransfer, Error>(Error::Vault(VaultError::InvalidMint)),
        accounts.user_token.mint@ == accounts.usdc_mint.key@ ==> r == Ok::<TokenTransfer, Error>(TokenTransfer {
            from: accounts.user_token.key,
            to: accounts.vault_token.key,
            mint: accounts.usdc_mint.key,
            authority: accounts.user,
            amount: amount,
            decimals: accounts.usdc_mint.decimals,
            signer_seeds: None,
        }),
{
    if !keys_equal(&accounts.user_token.mint, &accounts.usdc_mint.key) {
        return Err(Error::Vault(VaultError::InvalidMint));
    }
    Ok(TokenTransfer {
        from: accounts.user_token.key,
        to: accounts.vault_token.key,
        mint: accounts.usdc_mint.key,
        authority: accounts.user,
        amount,
        decimals: accounts.usdc_mint.decimals,
        signer_seeds: None,
    })
}

/// Withdraws `amount` tokens from the vault's token account back to the
/// user's, authorised by the vault's derived address, which signs with
/// `["vault", user, bump]`.
pub fn withdraw(accounts: &Withdraw, bump: &VaultBump, amount: u64) -> (r: TokenTransfer)
    ensures
        r.from == accounts.vault_token.key,
        r.to == accounts.user_token.key,
        r.mint == accounts.usdc_mint.key,
        r.authority == accounts.vault,
        r.amount == amount,
        r.decimals == accounts.usdc_mint.decimals,
        r.signer_seeds matches Some(s) && seed_bytes(s@) == user_vault_authority_seed_list(accounts.user@).push(seq![bump.vault]),
{
    let seeds = with_bump(user_vault_authority_seeds(&accounts.user), bump.vault);
    TokenTransfer {
        from: accounts.vault_token.key,
        to: accounts.user_token.key,
        mint: accounts.usdc_mint.key,
        authority: accounts.vault,
        amount,
        decimals: accounts.usdc_mint.decimals,
        signer_seeds: Some(seeds),
    }
}

} // verus!

verus! {

/// Accounts that pass the constraints of a withdrawal name the vault authority
/// found for `["vault", user]` with the bump given, and the vault's token
/// account is owned by it: the seeds a withdrawal signs with derive the
/// authority of the token account it pays from.
pub proof fn withdraw_signs_for_checked_authority(a: Withdraw, program_id: Seq<u8>, bump: VaultBump)
    requires
        withdraw_constraints(a, program_id) == Ok::<VaultBump, ConstraintError>(bump),
    ensures
        program_address(user_vault_authority_seed_list(a.user@), program_id) == Some((a.vault@, bump.vault)),
        a.vault_token.owner@ == a.vault@,
{
}

/// Accounts that pass the constraints of a deposit have the user owning the
/// source token account and the vault authority owning the destination.
pub proof fn deposit_accounts_owned_as_declared(a: Deposit, program_id: Seq<u8>, bump: VaultBump)
    requires
        deposit_constraints(a, program_id) == Ok::<VaultBump, ConstraintError>(bump),
    ensures
        a.user_token.owner@ == a.user@,
        a.vault_token.owner@ == a.vault@,
        program_address(user_vault_authority_seed_list(a.user@), program_id) == Some((a.vault@, bump.vault)),
{
}

} // verus!

verus! {

/// The constraints of `deposit` accept exactly: the user owns the source token
/// account, the vault is at the address found for `["vault", user]` with
/// whatever bump is found, and the vault owns the vault's token account; they
/// give that bump. A source account of another owner is refused as a raw
/// constraint before the address is looked at.
pub proof fn deposit_accepts_exactly_declared_constraints(a: Deposit, program_id: Seq<u8>, b: VaultBump)
    ensures
        deposit_constraints(a, program_id) == Ok::<VaultBump, ConstraintError>(b) <==> (
            a.user_token.owner@ == a.user@
            && program_address(user_vault_authority_seed_list(a.user@), program_id) == Some((a.vault@, b.vault))
            && a.vault_token.owner@ == a.vault@),
        a.user_token.owner@ != a.user@ ==> deposit_constraints(a, program_id) == Err::<VaultBump, ConstraintError>(ConstraintError::ConstraintRaw),
        a.user_token.owner@ == a.user@ && program_address(user_vault_authority_seed_list(a.user@), program_id) == Some((a.vault@, b.vault))
            && a.vault_token.owner@ != a.vault@ ==> deposit_constraints(a, program_id) == Err::<VaultBump, ConstraintError>(ConstraintError::ConstraintRaw),
{
}

/// The constraints of `withdraw` accept exactly: the vault is at the address
/// found for `["vault", user]` with whatever bump is found, and the vault owns
/// the vault's token account; they give that bump.
pub proof fn withdraw_accepts_exactly_declared_constraints(a: Withdraw, program_id: Seq<u8>, b: VaultBump)
    ensures
        withdraw_constraints(a, program_id) == Ok::<VaultBump, ConstraintError>(b) <==> (
            program_address(user_vault_authority_seed_list(a.user@), program_id) == Some((a.vault@, b.vault))
            && a.vault_token.owner@ == a.vault@),
        program_address(user_vault_authority_seed_list(a.user@), program_id) == Some((a.vault@, b.vault))
            && a.vault_token.owner@ != a.vault@ ==> withdraw_constraints(a, program_id) == Err::<VaultBump, ConstraintError>(ConstraintError::ConstraintRaw),
{
}

} // verus!
