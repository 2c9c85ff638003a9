//! A token vault's initialisation: it records the vault id and creates the
//! vault's treasury, as the shared SOL vault does. Its state and its accounts
//! have the shared vault's layout.

use vstd::prelude::*;

pub use crate::errors::CustomError;
use crate::events::SignedInstruction;
use crate::pda::{seed_bytes, treasury_seed_list};
use crate::system::is_create_account;
pub use crate::user_vault::{Initialize, InitializeBumps, UserVault, Vault};

verus! {

/// Records the vault id and creates the treasury, a system account of no data
/// funded by the user with `lamports`, signed for with the treasury's seeds and bump.
pub fn handler(
    vault: &mut Vault,
    accounts: &Initialize,
    bumps: &InitializeBumps,
    vault_id: u64,
    lamports: u64,
) -> (r: SignedInstruction)
    ensures
        final(vault).vault_id == vault_id,
        is_create_account(r.instruction, accounts.user@, accounts.vault_treasury@, lamports, 0, accounts.system_program@),
        seed_bytes(r.signer_seeds@) == treasury_seed_list(vault_id).push(seq![bumps.vault_treasury]),
{
    crate::user_vault::initialize(vault, accounts, bumps, vault_id, lamports)
}

/// The program's `initialize` instruction: it runs `handler` and gives what
/// `handler` gives.
pub fn initialize(
    vault: &mut Vault,
    accounts: &Initialize,
    bumps: &InitializeBumps,
    vault_id: u64,
    lamports: u64,
) -> (r: SignedInstruction)
    ensures
        final(vault).vault_id == vault_id,
        is_create_account(r.instruction, accounts.user@, accounts.vault_treasury@, lamports, 0, accounts.system_program@),
        seed_bytes(r.signer_seeds@) == treasury_seed_list(vault_id).push(seq![bumps.vault_treasury]),
{
    handler(vault, accounts, bumps, vault_id, lamports)
}

} // verus!
