//! Instructions of the system program, built by the system program's
//! interface crate and handed back as plain values.

use anchor_lang::solana_program::pubkey::Pubkey;
use anchor_lang::solana_program::system_instruction;
use vstd::prelude::*;

use crate::bytes::{le_bytes, zero_key, Key};

verus! {

/// One account that an instruction names.
#[derive(Debug, Clone, Copy, PartialEq, Eq)]
pub struct AccountMeta {
    pub key: Key,
    pub is_signer: bool,
    pub is_writable: bool,
}

/// An instruction for a program: the program's key, the accounts it names, and its data.
#[derive(Debug, PartialEq, Eq)]
pub struct Instruction {
    pub program_id: Key,
    pub accounts: Vec<AccountMeta>,
    pub data: Vec<u8>,
}

/// `m` names the account `key` with the given signer and writable flags.
pub open spec fn names_account(m: AccountMeta, key: Seq<u8>, signer: bool, writable: bool) -> bool {
    &&& m.key@ == key
    &&& m.is_signer == signer
    &&& m.is_writable == writable
}

/// `ix` is the system program's `Transfer` of `lamports` from `from` (writable signer)
/// to `to` (writable): the data is the variant index 2 as a little-endian `u32`
/// followed by the amount as a little-endian `u64`.
pub open spec fn is_transfer(ix: Instruction, from: Seq<u8>, to: Seq<u8>, lamports: u64) -> bool {
    &&& ix.program_id@ == zero_key()
    &&& ix.accounts@.len() == 2
    &&& names_account(ix.accounts@[0], from, true, true)
    &&& names_account(ix.accounts@[1], to, false, true)
    &&& ix.data@ == seq![2u8, 0u8, 0u8, 0u8] + le_bytes(lamports)
}

/// `ix` is the system program's `CreateAccount` funded by `from` for the new account
/// `to` (both writable signers): the data is the variant index 0 as a little-endian
/// `u32`, then `lamports` and `space` as little-endian `u64`, then the owner's 32 bytes.
pub open spec fn is_create_account(
    ix: Instruction,
    from: Seq<u8>,
    to: Seq<u8>,
    lamports: u64,
    space: u64,
    owner: Seq<u8>,
) -> bool {
    &&& ix.program_id@ == zero_key()
    &&& ix.accounts@.len() == 2
    &&& names_account(ix.accounts@[0], from, true, true)
    &&& names_account(ix.accounts@[1], to, true, true)
    &&& ix.data@ == seq![0u8, 0u8, 0u8, 0u8] + le_bytes(lamports) + le_bytes(space) + owner
}

/// Calls `system_instruction::transfer` of the system program's interface crate.
/// Its source builds the program id of the system program (32 zero bytes), the
/// metas `[writable signer from, writable to]` and the bincode encoding of
/// `SystemInstruction::Transfer { lamports }`; the contract claims that layout.
#[verifier::external_body]
pub(crate) fn system_transfer(from: &Key, to: &Key, lamports: u64) -> (ix: Instruction)
    ensures
        is_transfer(ix, from@, to@, lamports),
{
    let ix = system_instruction::transfer(&Pubkey::new_from_array(*from), &Pubkey::new_from_array(*to), lamports);
    Instruction {
        program_id: ix.program_id.to_bytes(),
        accounts: ix.accounts.iter().map(|m| AccountMeta { key: m.pubkey.to_bytes(), is_signer: m.is_signer, is_writable: m.is_writable }).collect(),
        data: ix.data,
    }
}

/// Calls `system_instruction::create_account` of the system program's interface
/// crate. Its source builds the system program's id, the metas `[writable signer
/// from, writable signer to]` and the bincode encoding of
/// `SystemInstruction::CreateAccount { lamports, space, owner }`; the contract
/// claims that layout.
#[verifier::external_body]
pub(crate) fn system_create_account(from: &Key, to: &Key, lamports: u64, space: u64, owner: &Key) -> (ix: Instruction)
    ensures
        is_create_account(ix, from@, to@, lamports, space, owner@),
{
    let ix = system_instruction::create_account(&Pubkey::new_from_array(*from), &Pubkey::new_from_array(*to), lamports, space, &Pubkey::new_from_array(*owner));
    Instruction {
        program_id: ix.program_id.to_bytes(),
        accounts: ix.accounts.iter().map(|m| AccountMeta { key: m.pubkey.to_bytes(), is_signer: m.is_signer, is_writable: m.is_writable }).collect(),
        data: ix.data,
    }
}

} // verus!
