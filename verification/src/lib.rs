//! A dollar-cost-averaging vault: each depositor holds a balance and an
//! optional recurring purchase schedule, and a demo pool swaps one token for
//! another at a fixed one-to-one rate.
//!
//! The operations here are the contracts' decisions. Each takes what the
//! ledger holds for the call (a stored vault, a configured token, the pool's
//! balance, the current ledger sequence) and returns what to store and what
//! to ask of the outside world, or the error with which the call is refused.
pub mod laws;
pub mod pool;
pub mod schedule;
pub mod vault;

pub use pool::{DemoPool, PoolConfig, PoolError};
pub use schedule::{min_amount_out, Frequency, Schedule, LEDGERS_PER_DAY};
pub use vault::{DcaVaultContract, SwapOrder, Vault, VaultError};
