//! Errors the programs report.

use vstd::prelude::*;

verus! {

/// Failures of the account constraints that the programs declare.
#[derive(Debug, Clone, Copy, PartialEq, Eq, Structural)]
pub enum ConstraintError {
    /// A declared boolean constraint over the accounts does not hold.
    ConstraintRaw,
    /// An account's key is not the address derived from its declared seeds.
    ConstraintSeeds,
}

/// Errors of the USDC vault program.
#[derive(Debug, Clone, Copy, PartialEq, Eq, Structural)]
pub enum VaultError {
    /// The source token account holds a different mint than the vault's.
    InvalidMint,
}

/// Errors of the SOL vault programs.
#[derive(Debug, Clone, Copy, PartialEq, Eq, Structural)]
pub enum CustomError {
    /// The signer is not the owner of the account it acts on.
    Unauthorized,
    /// The balance is smaller than the amount asked for.
    InsufficientFunds,
    /// The amount is zero.
    InvalidAmount,
}

/// Any error an instruction of these programs returns.
#[derive(Debug, Clone, Copy, PartialEq, Eq, Structural)]
pub enum Error {
    Constraint(ConstraintError),
    Vault(VaultError),
    Custom(CustomError),
}

} // verus!
