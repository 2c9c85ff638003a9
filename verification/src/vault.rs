//! A SOL vault with an owner: the vault account sits at `["vault", owner,
//! vault_id]`, holds the lamports itself, and only its owner withdraws; the
//! program moves a withdrawal's lamports out of its own account directly.

use vstd::prelude::*;

use crate::bytes::{keys_equal, Key};
pub use crate::errors::CustomError;
use crate::errors::{ConstraintError, Error};
pub use crate::events::{DepositEvent, WithdrawEvent};
use crate::pda::{owned_vault_seed_list, owned_vault_seeds, program_address, seeds_outcome, verify_derived_address};
use crate::system::{is_transfer, system_transfer, Instruction};

verus! {

/// The state of an owned vault.
#[derive(Debug, Clone, Copy, PartialEq, Eq)]
pub struct Vault {
    pub owner: Key,
    pub vault_id: u64,
}

/// The accounts of `initialize`, by key.
#[derive(Debug, Clone, Copy, PartialEq, Eq)]
pub struct Initialize {
    pub vault: Key,
    pub user: Key,
    pub system_program: Key,
}

/// The accounts of `deposit`, by key.
#[derive(Debug, Clone, Copy, PartialEq, Eq)]
pub struct Deposit {
    pub vault: Key,
    pub user: Key,
    pub system_program: Key,
}

/// The accounts of `withdraw`, by key.
#[derive(Debug, Clone, Copy, PartialEq, Eq)]
pub struct Withdraw {
    pub vault: Key,
    pub user: Key,
    pub system_program: Key,
}

/// The bump seed of the vault's derived address.
#[derive(Debug, Clone, Copy, PartialEq, Eq)]
pub struct VaultBump {
    pub vault: u8,
}

/// A deposit: the transfer into the vault, and the event to log after it.
#[derive(Debug, PartialEq, Eq)]
pub struct SolDeposit {
    pub transfer: Instruction,
    pub event: DepositEvent,
}

/// The seeds constraint of every instruction: the vault sits at
/// `["vault", user, vault_id]`.
pub open spec fn vault_constraint(vault: Seq<u8>, user: Seq<u8>, program_id: Seq<u8>, vault_id: u64) -> Result<VaultBump, ConstraintError> {
    match seeds_outcome(program_address(owned_vault_seed_list(user, vault_id), program_id), vault) {
        Err(e) => Err(e),
        Ok(b) => Ok(VaultBump { vault: b }),
    }
}

fn check_vault(vault: &Key, user: &Key, program_id: &Key, vault_id: u64) -> (r: Result<VaultBump, ConstraintError>)
    ensures
        r == vault_constraint(vault@, user@, program_id@, vault_id),
{
    let b = verify_derived_address(&owned_vault_seeds(user, vault_id), program_id, vault)?;
    Ok(VaultBump { vault: b })
}

impl Initialize {
    /// Checks the vault's seeds constraint and gives its bump seed.
    pub fn validate(&self, program_id: &Key, vault_id: u64) -> (r: Result<VaultBump, ConstraintError>)
        ensures
            r == vault_constraint(self.vault@, self.user@, program_id@, vault_id),
    {
        check_vault(&self.vault, &self.user, program_id, vault_id)
    }
}

impl Deposit {
    /// Checks the vault's seeds constraint and gives its bump seed.
    pub fn validate(&self, program_id: &Key, vault_id: u64) -> (r: Result<VaultBump, ConstraintError>)
        ensures
            r == vault_constraint(self.vault@, self.user@, program_id@, vault_id),
    {
        check_vault(&self.vault, &self.user, program_id, vault_id)
    }
}

impl Withdraw {
    /// Checks the vault's seeds constraint and gives its bump seed.
    pub fn validate(&self, program_id: &Key, vault_id: u64) -> (r: Result<VaultBump, ConstraintError>)
        ensures
            r == vault_constraint(self.vault@, self.user@, program_id@, vault_id),
    {
        check_vault(&self.vault, &self.user, program_id, vault_id)
    }
}

/// Records the signing user as the vault's owner, and the vault id.
pub fn initialize(vault: &mut Vault, accounts: &Initialize, vault_id: u64)
    ensures
        *final(vault) == (Vault { owner: accounts.user, vault_id: vault_id }),
{
    vault.owner = accounts.user;
    vault.vault_id = vault_id;
}

/// Deposits `amount` lamports from the user into the vault; refuses a zero amount.
pub fn deposit(accounts: &Deposit, amount: u64) -> (r: Result<SolDeposit, Error>)
    ensures
        amount == 0 ==> r == Err::<SolDeposit, Error>(Error::Custom(CustomError::InvalidAmount)),
        amount > 0 ==> (r matches Ok(d) && {
            &&& is_transfer(d.transfer, accounts.user@, accounts.vault@, amount)
            &&& d.event == DepositEvent { user: accounts.user, amount: amount }
        }),
{
    if amount == 0 {
        return Err(Error::Custom(CustomError::InvalidAmount));
    }
    let transfer = system_transfer(&accounts.user, &accounts.vault, amount);
    Ok(SolDeposit { transfer, event: DepositEvent { user: accounts.user, amount } })
}

/// Why a withdrawal is refused, checked in this order: the user is not the
/// owner, the amount is zero, the vault holds fewer lamports than asked.
pub open spec fn withdraw_refusal(vault: Vault, user: Seq<u8>, vault_lamports: u64, amount: u64) -> Option<CustomError> {
    if vault.owner@ != user {
        Some(CustomError::Unauthorized)
    } else if amount == 0 {
        Some(CustomError::InvalidAmount)
    } else if vault_lamports < amount {
        Some(CustomError::InsufficientFunds)
    } else {
        None
    }
}

/// Whether a withdrawal would pass its checks and then overflow the user's
/// lamports, which `withdraw` leaves out (the lamports in existence fit a `u64`).
pub fn withdraw_would_overflow(vault: &Vault, accounts: &Withdraw, vault_lamports: u64, user_lamports: u64, amount: u64) -> (r: bool)
    ensures
        r == (withdraw_refusal(*vault, accounts.user@, vault_lamports, amount) is None && user_lamports + amount > u64::MAX),
{
    keys_equal(&vault.owner, &accounts.user) && amount > 0 && vault_lamports >= amount && user_lamports > u64::MAX - amount
}

/// Withdraws `amount` lamports from the vault to its owner by moving them
/// directly between the two accounts: the vault (an account of this program
/// holding its data) has `vault_lamports`, the user `user_lamports`. The vault's
/// lamports drop by the amount, the user's rise by it, and the vault's data
/// stays as it is.
pub fn withdraw(
    vault: &Vault,
    accounts: &Withdraw,
    vault_lamports: &mut u64,
    user_lamports: &mut u64,
    amount: u64,
) -> (r: Result<WithdrawEvent, Error>)
    requires
        withdraw_refusal(*vault, accounts.user@, *old(vault_lamports), amount) is None
            ==> *old(user_lamports) + amount <= u64::MAX,
    ensures
        match withdraw_refusal(*vault, accounts.user@, *old(vault_lamports), amount) {
            Some(e) => {
                &&& r == Err::<WithdrawEvent, Error>(Error::Custom(e))
                &&& *final(vault_lamports) == *old(vault_lamports)
                &&& *final(user_lamports) == *old(user_lamports)
            },
            None => {
                &&& r == Ok::<WithdrawEvent, Error>(WithdrawEvent { user: accounts.user, amount: amount })
                &&& *final(vault_lamports) == *old(vault_lamports) - amount
                &&& *final(user_lamports) == *old(user_lamports) + amount
            },
        },
        *final(vault_lamports) + *final(user_lamports) == *old(vault_lamports) + *old(user_lamports),
{
    if !keys_equal(&vault.owner, &accounts.user) {
        return Err(Error::Custom(CustomError::Unauthorized));
    }
    if amount == 0 {
        return Err(Error::Custom(CustomError::InvalidAmount));
    }
    if *vault_lamports < amount {
        return Err(Error::Custom(CustomError::InsufficientFunds));
    }
    *vault_lamports = *vault_lamports - amount;
    *user_lamports = *user_lamports + amount;
    Ok(WithdrawEvent { user: accounts.user, amount })
}

} // verus!

verus! {

/// Only the owner withdraws, a positive amount, no more than the vault holds.
pub proof fn withdraw_only_by_owner_within_funds(vault: Vault, user: Seq<u8>, vault_lamports: u64, amount: u64)
    ensures
        withdraw_refusal(vault, user, vault_lamports, amount) is None <==> (vault.owner@ == user && 0 < amount <= vault_lamports),
{
}

} // verus!

verus! {

/// An accepted withdrawal pays out of the vault derived from its owner: when
/// the accounts pass the seeds check and the withdrawal passes its own
/// checks, the vault's key is the address found for `["vault", owner, vault_id]`.
pub proof fn withdraw_pays_from_owners_vault(
    a: Withdraw,
    program_id: Seq<u8>,
    vault_id: u64,
    bump: VaultBump,
    v: Vault,
    vault_lamports: u64,
    amount: u64,
)
    requires
        vault_constraint(a.vault@, a.user@, program_id, vault_id) == Ok::<VaultBump, ConstraintError>(bump),
        withdraw_refusal(v, a.user@, vault_lamports, amount) is None,
    ensures
        program_address(owned_vault_seed_list(v.owner@, vault_id), program_id) == Some((a.vault@, bump.vault)),
{
}

/// A vault that passes its seeds check and is then initialised records the
/// owner and id from which its address is derived: the seeds
/// `["vault", owner, vault_id]` of what it records find the vault's own address.
pub proof fn initialized_vault_records_its_seeds(a: Initialize, program_id: Seq<u8>, vault_id: u64, bump: VaultBump, v: Vault)
    requires
        vault_constraint(a.vault@, a.user@, program_id, vault_id) == Ok::<VaultBump, ConstraintError>(bump),
        v == (Vault { owner: a.user, vault_id: vault_id }),
    ensures
        program_address(owned_vault_seed_list(v.owner@, v.vault_id), program_id) == Some((a.vault@, bump.vault)),
{
}

} // verus!

verus! {

/// The seeds check accepts exactly the vault at the address found for
/// `["vault", user, vault_id]`, for every vault id, and gives the bump found with it.
pub proof fn vault_accepted_exactly_at_derived_address(vault: Seq<u8>, user: Seq<u8>, program_id: Seq<u8>, vault_id: u64, b: VaultBump)
    ensures
        vault_constraint(vault, user, program_id, vault_id) == Ok::<VaultBump, ConstraintError>(b)
            <==> program_address(owned_vault_seed_list(user, vault_id), program_id) == Some((vault, b.vault)),
        vault_constraint(vault, user, program_id, vault_id) is Err ==>
            vault_constraint(vault, user, program_id, vault_id) == Err::<VaultBump, ConstraintError>(ConstraintError::ConstraintSeeds),
{
}

} // verus!
