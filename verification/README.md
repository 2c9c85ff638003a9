# vault_programs

Verified account logic of four small Solana programs written with Anchor:

- `spl_token`: a USDC vault; tokens move between a user's token account and a
  vault token account whose authority is the derived address `["vault", user]`.
- `vault`: a SOL vault at `["vault", owner, vault_id]` that only its owner
  withdraws from, by a direct move of lamports out of the program's account.
- `user_vault`: shared SOL vaults, each with a treasury at
  `["vault_treasury", vault_id]` and a separate balance per user at
  `["user_vault", user, vault]`.
- `token_vault`: the initialisation of a vault and its treasury.

`src/` holds the library, verified with Verus: account constraints (derived
addresses, ownership), the instruction handlers' checks and bookkeeping, the
system-program instructions they issue and the seeds they sign with, with
proofs of the properties the programs rely on. `tests/` runs it.

`app/` holds the Anchor glue: account loading, the rent sysvar, cross-program
invocations and event logs, carried out as the library directs.
