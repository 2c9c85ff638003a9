//! Verified account logic of four small Solana vault programs: a USDC vault
//! that moves SPL tokens through a program-derived authority, a SOL vault with
//! an owner, a shared SOL treasury with per-user balances, and the
//! initialisation of a token vault's treasury.
//!
//! Account data and keys are modelled as plain values (keys are their 32
//! bytes); what the on-chain runtime performs (cross-program invocations,
//! sysvar reads, event logs) is returned as values for the caller to carry out.

pub mod bytes;
pub mod errors;
pub mod system;
pub mod pda;
pub mod events;
pub mod user_vault;
pub mod token_vault;
pub mod vault;
pub mod spl_token;
