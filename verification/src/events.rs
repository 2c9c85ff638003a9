//! Events the SOL vault programs log.

use vstd::prelude::*;

use crate::bytes::Key;

verus! {

/// Logged when a user deposits lamports.
#[derive(Debug, Clone, Copy, PartialEq, Eq)]
pub struct DepositEvent {
    pub user: Key,
    pub amount: u64,
}

/// Logged when a user withdraws lamports.
#[derive(Debug, Clone, Copy, PartialEq, Eq)]
pub struct WithdrawEvent {
    pub user: Key,
    pub amount: u64,
}

} // verus!

verus! {

/// An instruction together with the seeds under which the program signs for a
/// derived address that the instruction names as signer.
#[derive(Debug, PartialEq, Eq)]
pub struct SignedInstruction {
    pub instruction: crate::system::Instruction,
    pub signer_seeds: Vec<Vec<u8>>,
}

/// A withdrawal: the transfer out of a derived address, the seeds that sign
/// for it, and the event to log once the transfer went through.
#[derive(Debug, PartialEq, Eq)]
pub struct Withdrawal {
    pub transfer: crate::system::Instruction,
    pub signer_seeds: Vec<Vec<u8>>,
    pub event: WithdrawEvent,
}

} // verus!
