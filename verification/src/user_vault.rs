//! A shared SOL vault: every vault id has a vault account and a treasury that
//! holds the lamports, and every user has a separate balance in each vault.

use vstd::prelude::*;

use crate::bytes::{is_zero_key, keys_equal, zero_key, Key};
pub use crate::errors::CustomError;
use crate::errors::{ConstraintError, Error};
pub use crate::events::{DepositEvent, WithdrawEvent};
use crate::events::{SignedInstruction, Withdrawal};
use crate::pda::{
    program_address, seed_bytes, seeds_outcome, treasury_seed_list, treasury_seeds,
    user_vault_seed_list, user_vault_seeds, vault_seed_list, vault_seeds, verify_derived_address,
    with_bump,
};
use crate::system::{is_create_account, is_transfer, system_create_account, system_transfer, Instruction};

verus! {

/// The state account of a shared vault.
#[derive(Debug, Clone, Copy, PartialEq, Eq)]
pub struct Vault {
    pub vault_id: u64,
}

/// A user's balance in one shared vault.
#[derive(Debug, Clone, Copy, PartialEq, Eq)]
pub struct UserVault {
    pub user: Key,
    pub vault: Key,
    pub balance: u64,
}

/// The accounts of `initialize`, by key.
#[derive(Debug, Clone, Copy, PartialEq, Eq)]
pub struct Initialize {
    pub vault: Key,
    pub vault_treasury: Key,
    pub user: Key,
    pub system_program: Key,
}

/// Bump seeds of the derived addresses of `initialize`.
#[derive(Debug, Clone, Copy, PartialEq, Eq)]
pub struct InitializeBumps {
    pub vault: u8,
    pub vault_treasury: u8,
}

/// The accounts of `deposit`, by key.
#[derive(Debug, Clone, Copy, PartialEq, Eq)]
pub struct Deposit {
    pub vault: Key,
    pub vault_treasury: Key,
    pub user_vault: Key,
    pub user: Key,
    pub system_program: Key,
}

/// The accounts of `withdraw`, by key.
#[derive(Debug, Clone, Copy, PartialEq, Eq)]
pub struct Withdraw {
    pub vault: Key,
    pub vault_treasury: Key,
    pub user_vault: Key,
    pub user: Key,
    pub system_program: Key,
}

/// Bump seeds of the derived addresses of `deposit` and `withdraw`.
#[derive(Debug, Clone, Copy, PartialEq, Eq)]
pub struct VaultBumps {
    pub vault: u8,
    pub vault_treasury: u8,
    pub user_vault: u8,
}

/// What `deposit` asks the runtime to do, and what follows once it is done:
/// the transfer into the treasury, then the bookkeeping's event or error.
#[derive(Debug, PartialEq, Eq)]
pub struct DepositPlan {
    pub transfer: Instruction,
    pub outcome: Result<DepositEvent, Error>,
}

/// The seeds constraints of `initialize`: the vault at `["vault", vault_id]`,
/// then the treasury at `["vault_treasury", vault_id]`.
pub open spec fn initialize_constraints(a: Initialize, program_id: Seq<u8>, vault_id: u64) -> Result<InitializeBumps, ConstraintError> {
    match seeds_outcome(program_address(vault_seed_list(vault_id), program_id), a.vault@) {
        Err(e) => Err(e),
        Ok(v) => match seeds_outcome(program_address(treasury_seed_list(vault_id), program_id), a.vault_treasury@) {
            Err(e) => Err(e),
            Ok(t) => Ok(InitializeBumps { vault: v, vault_treasury: t }),
        },
    }
}

/// The seeds constraints of `deposit` and `withdraw`: the vault, the treasury,
/// then the user's balance account at `["user_vault", user, vault]`.
pub open spec fn balance_constraints(
    vault: Seq<u8>,
    treasury: Seq<u8>,
    user_vault: Seq<u8>,
    user: Seq<u8>,
    program_id: Seq<u8>,
    vault_id: u64,
) -> Result<VaultBumps, ConstraintError> {
    match seeds_outcome(program_address(vault_seed_list(vault_id), program_id), vault) {
        Err(e) => Err(e),
        Ok(v) => match seeds_outcome(program_address(treasury_seed_list(vault_id), program_id), treasury) {
            Err(e) => Err(e),
            Ok(t) => match seeds_outcome(program_address(user_vault_seed_list(user, vault), program_id), user_vault) {
                Err(e) => Err(e),
                Ok(u) => Ok(VaultBumps { vault: v, vault_treasury: t, user_vault: u }),
            },
        },
    }
}

fn check_balance_accounts(
    vault: &Key,
    treasury: &Key,
    user_vault: &Key,
    user: &Key,
    program_id: &Key,
    vault_id: u64,
) -> (r: Result<VaultBumps, ConstraintError>)
    ensures
        r == balance_constraints(vault@, treasury@, user_vault@, user@, program_id@, vault_id),
{
    let v = verify_derived_address(&vault_seeds(vault_id), program_id, vault)?;
    let t = verify_derived_address(&treasury_seeds(vault_id), program_id, treasury)?;
    let u = verify_derived_address(&user_vault_seeds(user, vault), program_id, user_vault)?;
    Ok(VaultBumps { vault: v, vault_treasury: t, user_vault: u })
}

impl Initialize {
    /// Checks the accounts' seeds constraints and gives their bump seeds.
    pub fn validate(&self, program_id: &Key, vault_id: u64) -> (r: Result<InitializeBumps, ConstraintError>)
        ensures
            r == initialize_constraints(*self, program_id@, vault_id),
    {
        let v = verify_derived_address(&vault_seeds(vault_id), program_id, &self.vault)?;
        let t = verify_derived_address(&treasury_seeds(vault_id), program_id, &self.vault_treasury)?;
        Ok(InitializeBumps { vault: v, vault_treasury: t })
    }
}

impl Deposit {
    /// Checks the accounts' seeds constraints and gives their bump seeds.
    pub fn validate(&self, program_id: &Key, vault_id: u64) -> (r: Result<VaultBumps, ConstraintError>)
        ensures
            r == balance_constraints(self.vault@, self.vault_treasury@, self.user_vault@, self.user@, program_id@, vault_id),
    {
        check_balance_accounts(&self.vault, &self.vault_treasury, &self.user_vault, &self.user, program_id, vault_id)
    }
}

impl Withdraw {
    /// Checks the accounts' seeds constraints and gives their bump seeds.
    pub fn validate(&self, program_id: &Key, vault_id: u64) -> (r: Result<VaultBumps, ConstraintError>)
        ensures
            r == balance_constraints(self.vault@, self.vault_treasury@, self.user_vault@, self.user@, program_id@, vault_id),
    {
        check_balance_accounts(&self.vault, &self.vault_treasury, &self.user_vault, &self.user, program_id, vault_id)
    }
}

/// Records the vault id and creates the treasury: a system account of no data,
/// funded by the user with `lamports` (the rent-exempt minimum that the caller
/// reads from the rent sysvar), signed for with the treasury's seeds and bump.
pub fn initialize(
    vault: &mut Vault,
    accounts: &Initialize,
    bumps: &InitializeBumps,
    vault_id: u64,
    lamports: u64,
) -> (r: SignedInstruction)
    ensures
        final(vault).vault_id == vault_id,
        is_create_account(r.instruction, accounts.user@, accounts.vault_treasury@, lamports, 0, accounts.system_program@),
        seed_bytes(r.signer_seeds@) == treasury_seed_list(vault_id).push(seq![bumps.vault_treasury]),
{
    vault.vault_id = vault_id;
    let instruction = system_create_account(&accounts.user, &accounts.vault_treasury, lamports, 0, &accounts.system_program);
    let signer_seeds = with_bump(treasury_seeds(vault_id), bumps.vault_treasury);
    SignedInstruction { instruction, signer_seeds }
}

/// The balance account after a deposit claims it: an account whose user is
/// still the default key takes the depositor and the vault.
pub open spec fn claimed(uv: UserVault, user: Key, vault: Key) -> UserVault {
    if uv.user@ == zero_key() {
        UserVault { user: user, vault: vault, balance: uv.balance }
    } else {
        uv
    }
}

/// A deposit into `uv` through `a` passes the bookkeeping's check: once
/// claimed, the balance account belongs to the vault named.
pub open spec fn deposit_accepted(uv: UserVault, a: Deposit) -> bool {
    claimed(uv, a.user, a.vault).vault@ == a.vault@
}

/// The balance account after a deposit of `amount`.
pub open spec fn deposit_state(uv: UserVault, a: Deposit, amount: u64) -> UserVault {
    if amount > 0 && deposit_accepted(uv, a) {
        let c = claimed(uv, a.user, a.vault);
        UserVault { user: c.user, vault: c.vault, balance: (c.balance + amount) as u64 }
    } else {
        uv
    }
}

/// Whether a deposit of `amount` into `uv` through `a` would pass its checks
/// and then overflow the balance, where the program traps.
pub open spec fn deposit_overflows(uv: UserVault, a: Deposit, amount: u64) -> bool {
    amount > 0 && deposit_accepted(uv, a) && uv.balance + amount > u64::MAX
}

/// Tells whether `deposit` would overflow the balance: the inputs that
/// `deposit` leaves out, on which the program traps after the transfer.
pub fn deposit_would_overflow(user_vault: &UserVault, accounts: &Deposit, amount: u64) -> (r: bool)
    ensures
        r == deposit_overflows(*user_vault, *accounts, amount),
{
    if amount == 0 {
        return false;
    }
    let recorded_vault: Key = if is_zero_key(&user_vault.user) { accounts.vault } else { user_vault.vault };
    if !keys_equal(&recorded_vault, &accounts.vault) {
        return false;
    }
    user_vault.balance > u64::MAX - amount
}

/// Deposits `amount` lamports: refuses a zero amount; otherwise transfers the
/// amount from the user to the treasury, and then claims the balance account if
/// it is unclaimed, refuses it if it belongs to another vault, and credits it.
pub fn deposit(user_vault: &mut UserVault, accounts: &Deposit, amount: u64) -> (r: Result<DepositPlan, Error>)
    requires
        !deposit_overflows(*old(user_vault), *accounts, amount),
    ensures
        *final(user_vault) == deposit_state(*old(user_vault), *accounts, amount),
        amount == 0 ==> r == Err::<DepositPlan, Error>(Error::Custom(CustomError::InvalidAmount)),
        amount > 0 ==> (r matches Ok(p) && {
            &&& is_transfer(p.transfer, accounts.user@, accounts.vault_treasury@, amount)
            &&& p.outcome == if deposit_accepted(*old(user_vault), *accounts) {
                Ok::<DepositEvent, Error>(DepositEvent { user: accounts.user, amount: amount })
            } else {
                Err::<DepositEvent, Error>(Error::Custom(CustomError::Unauthorized))
            }
        }),
{
    if amount == 0 {
        return Err(Error::Custom(CustomError::InvalidAmount));
    }
    let transfer = system_transfer(&accounts.user, &accounts.vault_treasury, amount);
    let unclaimed = is_zero_key(&user_vault.user);
    let recorded_vault: Key = if unclaimed { accounts.vault } else { user_vault.vault };
    if !keys_equal(&recorded_vault, &accounts.vault) {
        return Ok(DepositPlan { transfer, outcome: Err(Error::Custom(CustomError::Unauthorized)) });
    }
    if unclaimed {
        user_vault.user = accounts.user;
        user_vault.vault = accounts.vault;
    }
    user_vault.balance = user_vault.balance + amount;
    Ok(DepositPlan { transfer, outcome: Ok(DepositEvent { user: accounts.user, amount }) })
}

/// Why a withdrawal of `amount` from `uv` through `a` is refused, checked in
/// this order: a zero amount, another user, another vault, too small a balance.
pub open spec fn withdraw_refusal(uv: UserVault, a: Withdraw, amount: u64) -> Option<CustomError> {
    if amount == 0 {
        Some(CustomError::InvalidAmount)
    } else if uv.user@ != a.user@ {
        Some(CustomError::Unauthorized)
    } else if uv.vault@ != a.vault@ {
        Some(CustomError::Unauthorized)
    } else if uv.balance < amount {
        Some(CustomError::InsufficientFunds)
    } else {
        None
    }
}

/// The balance account after a withdrawal of `amount`.
pub open spec fn withdraw_state(uv: UserVault, a: Withdraw, amount: u64) -> UserVault {
    if withdraw_refusal(uv, a, amount) is None {
        UserVault { user: uv.user, vault: uv.vault, balance: (uv.balance - amount) as u64 }
    } else {
        uv
    }
}

/// Withdraws `amount` lamports from the treasury to the user, who must be the
/// one recorded in the balance account, for the vault recorded there, with a
/// balance that covers the amount; the treasury signs with its seeds and bump.
pub fn withdraw(
    user_vault: &mut UserVault,
    accounts: &Withdraw,
    bumps: &VaultBumps,
    vault_id: u64,
    amount: u64,
) -> (r: Result<Withdrawal, Error>)
    ensures
        *final(user_vault) == withdraw_state(*old(user_vault), *accounts, amount),
        match withdraw_refusal(*old(user_vault), *accounts, amount) {
            Some(e) => r == Err::<Withdrawal, Error>(Error::Custom(e)),
            None => r matches Ok(w) && {
                &&& is_transfer(w.transfer, accounts.vault_treasury@, accounts.user@, amount)
                &&& seed_bytes(w.signer_seeds@) == treasury_seed_list(vault_id).push(seq![bumps.vault_treasury])
                &&& w.event == WithdrawEvent { user: accounts.user, amount: amount }
            },
        },
{
    if amount == 0 {
        return Err(Error::Custom(CustomError::InvalidAmount));
    }
    if !keys_equal(&user_vault.user, &accounts.user) {
        return Err(Error::Custom(CustomError::Unauthorized));
    }
    if !keys_equal(&user_vault.vault, &accounts.vault) {
        return Err(Error::Custom(CustomError::Unauthorized));
    }
    if user_vault.balance < amount {
        return Err(Error::Custom(CustomError::InsufficientFunds));
    }
    let signer_seeds = with_bump(treasury_seeds(vault_id), bumps.vault_treasury);
    let transfer = system_transfer(&accounts.vault_treasury, &accounts.user, amount);
    user_vault.balance = user_vault.balance - amount;
    Ok(Withdrawal { transfer, signer_seeds, event: WithdrawEvent { user: accounts.user, amount } })
}

} // verus!

verus! {

/// Withdrawing what was just deposited gives the balance back: for a balance
/// account that is unclaimed or already the depositor's, a deposit of `amount`
/// accepted for a vault and then a withdrawal of `amount` by the same user
/// from the same vault is accepted, and leaves the account as the deposit
/// found it (claimed for the depositor when it was unclaimed).
pub proof fn deposit_then_withdraw_restores_balance(uv: UserVault, d: Deposit, w: Withdraw, amount: u64)
    requires
        amount > 0,
        uv.user@ == zero_key() || uv.user@ == d.user@,
        deposit_accepted(uv, d),
        uv.balance + amount <= u64::MAX,
        w.user@ == d.user@,
        w.vault@ == d.vault@,
    ensures
        withdraw_refusal(deposit_state(uv, d, amount), w, amount) is None,
        withdraw_state(deposit_state(uv, d, amount), w, amount) == claimed(uv, d.user, d.vault),
{
}

/// A withdrawal is accepted exactly when the amount is positive, the user and
/// vault are the ones recorded, and the balance covers the amount; then the
/// balance drops by the amount and nothing else changes.
pub proof fn withdraw_accepted_exactly_when_covered(uv: UserVault, a: Withdraw, amount: u64)
    ensures
        withdraw_refusal(uv, a, amount) is None <==> (amount > 0 && uv.user@ == a.user@ && uv.vault@ == a.vault@ && amount <= uv.balance),
        withdraw_refusal(uv, a, amount) is None ==> withdraw_state(uv, a, amount) == (UserVault {
            user: uv.user,
            vault: uv.vault,
            balance: (uv.balance - amount) as u64,
        }),
        withdraw_refusal(uv, a, amount) is Some ==> withdraw_state(uv, a, amount) == uv,
{
}

/// Once a balance account records a user, neither deposits nor withdrawals
/// change the user or the vault it records.
pub proof fn claimed_account_keeps_binding(uv: UserVault, d: Deposit, w: Withdraw, amount: u64)
    requires
        uv.user@ != zero_key(),
    ensures
        deposit_state(uv, d, amount).user == uv.user,
        deposit_state(uv, d, amount).vault == uv.vault,
        withdraw_state(uv, w, amount).user == uv.user,
        withdraw_state(uv, w, amount).vault == uv.vault,
{
}

/// Accounts that pass the constraints of a withdrawal name the treasury found
/// for `["vault_treasury", vault_id]`, and the bump given is the one found with
/// it: the seeds a withdrawal signs with derive the treasury it pays from.
pub proof fn withdraw_signs_for_checked_treasury(a: Withdraw, program_id: Seq<u8>, vault_id: u64, bumps: VaultBumps)
    requires
        balance_constraints(a.vault@, a.vault_treasury@, a.user_vault@, a.user@, program_id, vault_id) == Ok::<VaultBumps, ConstraintError>(bumps),
    ensures
        program_address(treasury_seed_list(vault_id), program_id) == Some((a.vault_treasury@, bumps.vault_treasury)),
        program_address(vault_seed_list(vault_id), program_id) == Some((a.vault@, bumps.vault)),
        program_address(user_vault_seed_list(a.user@, a.vault@), program_id) == Some((a.user_vault@, bumps.user_vault)),
{
}

} // verus!

verus! {

/// What balance account `b` records for the vault `vault`.
pub open spec fn recorded_in(b: UserVault, vault: Seq<u8>) -> int {
    if b.vault@ == vault { b.balance as int } else { 0 }
}

/// The sum of the balances that the accounts `bs` record for `vault`.
pub open spec fn vault_total(bs: Seq<UserVault>, vault: Seq<u8>) -> int
    decreases bs.len(),
{
    if bs.len() == 0 {
        0
    } else {
        vault_total(bs.drop_last(), vault) + recorded_in(bs.last(), vault)
    }
}

proof fn vault_total_update(bs: Seq<UserVault>, i: int, nb: UserVault, vault: Seq<u8>)
    requires
        0 <= i < bs.len(),
    ensures
        vault_total(bs.update(i, nb), vault) == vault_total(bs, vault) - recorded_in(bs[i], vault) + recorded_in(nb, vault),
    decreases bs.len(),
{
    if i == bs.len() - 1 {
        assert(bs.update(i, nb).drop_last() =~= bs.drop_last());
    } else {
        vault_total_update(bs.drop_last(), i, nb, vault);
        assert(bs.update(i, nb).drop_last() =~= bs.drop_last().update(i, nb));
    }
}

/// The lamports a deposit moves into the treasury when the instruction
/// succeeds: the amount, which `deposit`'s transfer names, once the
/// bookkeeping accepts it; nothing otherwise, the instruction then failing whole.
pub open spec fn deposit_moved(uv: UserVault, a: Deposit, amount: u64) -> int {
    if amount > 0 && deposit_accepted(uv, a) { amount as int } else { 0 }
}

/// The lamports a withdrawal moves out of the treasury: the amount, which
/// `withdraw`'s transfer names, once accepted; nothing otherwise.
pub open spec fn withdraw_moved(uv: UserVault, a: Withdraw, amount: u64) -> int {
    if withdraw_refusal(uv, a, amount) is None { amount as int } else { 0 }
}

/// A deposit moves into the treasury what it credits to the recorded balance:
/// for the balance accounts `bs` of all users, of which the `i`-th takes the
/// deposit (an unclaimed account holding nothing), the treasury's lamports
/// less the balances recorded for the vault stay the same, so a treasury
/// that covered the rent and all balances still does; the balances recorded
/// for any other vault do not change, and no other account changes.
pub proof fn deposit_keeps_treasury_surplus(
    bs: Seq<UserVault>,
    i: int,
    d: Deposit,
    amount: u64,
    treasury: int,
    rent: int,
    other: Seq<u8>,
)
    requires
        0 <= i < bs.len(),
        bs[i].user@ == zero_key() ==> bs[i].balance == 0,
        !deposit_overflows(bs[i], d, amount),
        other != d.vault@,
    ensures
        (treasury + deposit_moved(bs[i], d, amount)) - vault_total(bs.update(i, deposit_state(bs[i], d, amount)), d.vault@)
            == treasury - vault_total(bs, d.vault@),
        treasury - vault_total(bs, d.vault@) >= rent ==>
            (treasury + deposit_moved(bs[i], d, amount)) - vault_total(bs.update(i, deposit_state(bs[i], d, amount)), d.vault@) >= rent,
        vault_total(bs.update(i, deposit_state(bs[i], d, amount)), other) == vault_total(bs, other),
        forall|j: int| 0 <= j < bs.len() && j != i ==> bs.update(i, deposit_state(bs[i], d, amount))[j] == bs[j],
{
    vault_total_update(bs, i, deposit_state(bs[i], d, amount), d.vault@);
    vault_total_update(bs, i, deposit_state(bs[i], d, amount), other);
}

/// A withdrawal moves out of the treasury what it debits from the recorded
/// balance of the withdrawing user: for the balance accounts `bs` of all
/// users, of which the `i`-th is withdrawn from, the treasury's lamports less
/// the balances recorded for the vault stay the same, so a treasury that
/// covered the rent and all balances still does; an accepted withdrawal is
/// debited to the account that records the withdrawing user; the balances
/// recorded for any other vault do not change, and no other account changes.
pub proof fn withdraw_keeps_treasury_surplus(
    bs: Seq<UserVault>,
    i: int,
    w: Withdraw,
    amount: u64,
    treasury: int,
    rent: int,
    other: Seq<u8>,
)
    requires
        0 <= i < bs.len(),
        other != w.vault@,
    ensures
        (treasury - withdraw_moved(bs[i], w, amount)) - vault_total(bs.update(i, withdraw_state(bs[i], w, amount)), w.vault@)
            == treasury - vault_total(bs, w.vault@),
        treasury - vault_total(bs, w.vault@) >= rent ==>
            (treasury - withdraw_moved(bs[i], w, amount)) - vault_total(bs.update(i, withdraw_state(bs[i], w, amount)), w.vault@) >= rent,
        withdraw_moved(bs[i], w, amount) > 0 ==> bs[i].user@ == w.user@ && bs[i].vault@ == w.vault@,
        vault_total(bs.update(i, withdraw_state(bs[i], w, amount)), other) == vault_total(bs, other),
        forall|j: int| 0 <= j < bs.len() && j != i ==> bs.update(i, withdraw_state(bs[i], w, amount))[j] == bs[j],
{
    vault_total_update(bs, i, withdraw_state(bs[i], w, amount), w.vault@);
    vault_total_update(bs, i, withdraw_state(bs[i], w, amount), other);
}

} // verus!

verus! {

/// A deposit's bookkeeping accepts exactly the balance accounts that are
/// unclaimed or already record the vault deposited into, whatever balance they
/// record; an accepted positive deposit credits exactly the amount, and a
/// balance account that records the depositor and the vault keeps both.
pub proof fn deposit_accepts_own_or_unclaimed_account(uv: UserVault, d: Deposit, amount: u64)
    requires
        !deposit_overflows(uv, d, amount),
    ensures
        deposit_accepted(uv, d) <==> (uv.user@ == zero_key() || uv.vault@ == d.vault@),
        amount > 0 && uv.user@ == d.user@ && uv.vault@ == d.vault@ ==> {
            &&& deposit_state(uv, d, amount).user@ == uv.user@
            &&& deposit_state(uv, d, amount).vault@ == uv.vault@
            &&& deposit_state(uv, d, amount).balance == uv.balance + amount
        },
        amount > 0 && (uv.user@ == zero_key() || uv.vault@ == d.vault@) ==> deposit_state(uv, d, amount).balance == uv.balance + amount,
{
}

/// The constraints of `initialize` accept exactly the vault and treasury at
/// the addresses found for `["vault", vault_id]` and `["vault_treasury",
/// vault_id]`, for every vault id, and give the bumps found with them.
pub proof fn initialize_accepts_exactly_derived_addresses(a: Initialize, program_id: Seq<u8>, vault_id: u64, b: InitializeBumps)
    ensures
        initialize_constraints(a, program_id, vault_id) == Ok::<InitializeBumps, ConstraintError>(b) <==> (
            program_address(vault_seed_list(vault_id), program_id) == Some((a.vault@, b.vault))
            && program_address(treasury_seed_list(vault_id), program_id) == Some((a.vault_treasury@, b.vault_treasury))),
        initialize_constraints(a, program_id, vault_id) is Err ==>
            initialize_constraints(a, program_id, vault_id) == Err::<InitializeBumps, ConstraintError>(ConstraintError::ConstraintSeeds),
{
}

/// The constraints of `deposit` and `withdraw` accept exactly the vault,
/// treasury and balance account at the addresses found for `["vault",
/// vault_id]`, `["vault_treasury", vault_id]` and `["user_vault", user,
/// vault]`, for every vault id, and give the bumps found with them.
pub proof fn balance_accounts_accepted_exactly_at_derived_addresses(
    vault: Seq<u8>,
    treasury: Seq<u8>,
    user_vault: Seq<u8>,
    user: Seq<u8>,
    program_id: Seq<u8>,
    vault_id: u64,
    b: VaultBumps,
)
    ensures
        balance_constraints(vault, treasury, user_vault, user, program_id, vault_id) == Ok::<VaultBumps, ConstraintError>(b) <==> (
            program_address(vault_seed_list(vault_id), program_id) == Some((vault, b.vault))
            && program_address(treasury_seed_list(vault_id), program_id) == Some((treasury, b.vault_treasury))
            && program_address(user_vault_seed_list(user, vault), program_id) == Some((user_vault, b.user_vault))),
        balance_constraints(vault, treasury, user_vault, user, program_id, vault_id) is Err ==>
            balance_constraints(vault, treasury, user_vault, user, program_id, vault_id)
                == Err::<VaultBumps, ConstraintError>(ConstraintError::ConstraintSeeds),
{
}

} // verus!
