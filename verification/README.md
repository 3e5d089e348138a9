# dca_vault

A dollar-cost-averaging vault for Soroban, with its rules verified in Verus.

- `src/` — the verified library: the vault's and the demo pool's decisions
  (`vault.rs`, `pool.rs`), schedule periods and the slippage floor
  (`schedule.rs`), and properties over sequences of calls (`laws.rs`).
  Addresses are a type parameter: the library only carries them.
- `app/` — the two Soroban contracts. They read and write ledger storage,
  check signatures, move tokens, call the pool and publish events, and ask
  the library for every decision.
- `tests/` — scenarios over an in-memory ledger, and cases of the library's
  own.
