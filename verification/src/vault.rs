//! The vault contract's decisions. Each operation takes what the ledger holds
//! for one owner (the stored vault, if any) together with the call's
//! arguments, and returns the vault to store back, or the error with which
//! the call is refused. Moving tokens, checking signatures and reading the
//! ledger are done by the caller around these decisions.
use vstd::prelude::*;
use crate::schedule::{
    Frequency, Schedule, LEDGERS_PER_DAY, ledgers_between, min_amount_out, min_amount_out_for,
};

verus! {

/// One depositor's vault.
#[derive(Clone, Debug, PartialEq, Eq)]
pub struct Vault<A> {
    pub owner: A,
    /// Tokens deposited and not yet spent or withdrawn.
    pub balance: i128,
    pub schedule: Option<Schedule<A>>,
    /// While set, the schedule does not execute.
    pub paused: bool,
}

impl<A> Vault<A> {
    /// What every vault written by the contract satisfies.
    pub open spec fn wf(self) -> bool {
        &&& self.balance >= 0
        &&& match self.schedule {
            Some(s) => s.wf(),
            None => true,
        }
    }
}

/// Why the vault contract refuses a call.
#[derive(Clone, Copy, Debug, PartialEq, Eq, Structural)]
pub enum VaultError {
    AlreadyInitialized,
    NotInitialized,
    AmountNotPositive,
    VaultDoesNotExist,
    WithdrawalExceedsBalance,
    AmountPerExecutionNotPositive,
    MinAmountOutBpsTooLarge,
    SchedulePaused,
    NoScheduleConfigured,
    ScheduleNotYetDue,
    InsufficientBalanceForSwap,
}

impl VaultError {
    pub open spec fn spec_message(self) -> Seq<char> {
        match self {
            VaultError::AlreadyInitialized => "already initialized"@,
            VaultError::NotInitialized => "contract not initialized"@,
            VaultError::AmountNotPositive => "amount must be positive"@,
            VaultError::VaultDoesNotExist => "vault does not exist"@,
            VaultError::WithdrawalExceedsBalance => "withdrawal amount exceeds balance"@,
            VaultError::AmountPerExecutionNotPositive => "amount_per_execution must be positive"@,
            VaultError::MinAmountOutBpsTooLarge => "min_amount_out_bps must be <= 10000"@,
            VaultError::SchedulePaused => "schedule is paused"@,
            VaultError::NoScheduleConfigured => "no schedule configured"@,
            VaultError::ScheduleNotYetDue => "schedule is not yet due"@,
            VaultError::InsufficientBalanceForSwap => "insufficient balance for scheduled swap"@,
        }
    }

    /// The message with which the contract aborts on this error.
    pub fn message(&self) -> (m: &'static str)
        ensures
            m@ == self.spec_message(),
    {
        match self {
            VaultError::AlreadyInitialized => "already initialized",
            VaultError::NotInitialized => "contract not initialized",
            VaultError::AmountNotPositive => "amount must be positive",
            VaultError::VaultDoesNotExist => "vault does not exist",
            VaultError::WithdrawalExceedsBalance => "withdrawal amount exceeds balance",
            VaultError::AmountPerExecutionNotPositive => "amount_per_execution must be positive",
            VaultError::MinAmountOutBpsTooLarge => "min_amount_out_bps must be <= 10000",
            VaultError::SchedulePaused => "schedule is paused",
            VaultError::NoScheduleConfigured => "no schedule configured",
            VaultError::ScheduleNotYetDue => "schedule is not yet due",
            VaultError::InsufficientBalanceForSwap => "insufficient balance for scheduled swap",
        }
    }
}

/// The swap that one execution of a schedule asks the pool for: spend
/// `amount_in` of the vault's token and accept no less than `min_amount_out`.
#[derive(Clone, Copy, Debug, PartialEq, Eq, Structural)]
pub struct SwapOrder {
    pub amount_in: i128,
    pub min_amount_out: i128,
}

// ---------------------------------------------------------------------------
// The rules, as functions of the stored state and the call's arguments.
// ---------------------------------------------------------------------------

/// The stored vault, or a fresh empty one for `owner`.
pub open spec fn stored_or_new<A>(stored: Option<Vault<A>>, owner: A) -> Vault<A> {
    match stored {
        Some(v) => v,
        None => Vault { owner, balance: 0, schedule: None, paused: false },
    }
}

/// `v` with its balance set to `balance`.
pub open spec fn with_balance<A>(v: Vault<A>, balance: int) -> Vault<A> {
    Vault { owner: v.owner, balance: balance as i128, schedule: v.schedule, paused: v.paused }
}

/// `v` with its paused flag set to `paused`.
pub open spec fn with_paused<A>(v: Vault<A>, paused: bool) -> Vault<A> {
    Vault { owner: v.owner, balance: v.balance, schedule: v.schedule, paused }
}

pub open spec fn initialize_result<A>(stored_token: Option<A>, token: A) -> Result<A, VaultError> {
    if stored_token is Some {
        Err(VaultError::AlreadyInitialized)
    } else {
        Ok(token)
    }
}

pub open spec fn token_address_result<A>(stored_token: Option<A>) -> Result<A, VaultError> {
    match stored_token {
        Some(t) => Ok(t),
        None => Err(VaultError::NotInitialized),
    }
}

/// A deposit: refused for a non-positive amount, then when no token is
/// configured; otherwise the credited vault and the token to move in.
pub open spec fn deposit_result<A>(
    stored_token: Option<A>,
    stored: Option<Vault<A>>,
    owner: A,
    amount: i128,
) -> Result<(Vault<A>, A), VaultError> {
    if amount <= 0 {
        Err(VaultError::AmountNotPositive)
    } else {
        match stored_token {
            None => Err(VaultError::NotInitialized),
            Some(token) => {
                let v = stored_or_new(stored, owner);
                Ok((with_balance(v, v.balance + amount), token))
            },
        }
    }
}

/// A withdrawal: refused for a non-positive amount, a missing vault, an
/// amount over the balance, then when no token is configured; otherwise the
/// debited vault and the token to move out.
pub open spec fn withdraw_result<A>(
    stored_token: Option<A>,
    stored: Option<Vault<A>>,
    amount: i128,
) -> Result<(Vault<A>, A), VaultError> {
    if amount <= 0 {
        Err(VaultError::AmountNotPositive)
    } else {
        match stored {
            None => Err(VaultError::VaultDoesNotExist),
            Some(v) => if amount > v.balance {
                Err(VaultError::WithdrawalExceedsBalance)
            } else {
                match stored_token {
                    None => Err(VaultError::NotInitialized),
                    Some(token) => Ok((with_balance(v, v.balance - amount), token)),
                }
            },
        }
    }
}

/// The schedule that `create_schedule` attaches at ledger `current_ledger`.
pub open spec fn new_schedule<A>(
    frequency: Frequency,
    amount_per_execution: i128,
    target_asset: A,
    pool_address: A,
    min_amount_out_bps: u32,
    current_ledger: u32,
) -> Schedule<A> {
    Schedule {
        frequency,
        amount_per_execution,
        target_asset,
        last_execution_ledger: current_ledger,
        next_execution_ledger: (current_ledger + ledgers_between(frequency)) as u32,
        pool_address,
        min_amount_out_bps,
    }
}

pub open spec fn create_schedule_result<A>(
    stored: Option<Vault<A>>,
    owner: A,
    frequency: Frequency,
    amount_per_execution: i128,
    target_asset: A,
    pool_address: A,
    min_amount_out_bps: u32,
    current_ledger: u32,
) -> Result<Vault<A>, VaultError> {
    if amount_per_execution <= 0 {
        Err(VaultError::AmountPerExecutionNotPositive)
    } else if min_amount_out_bps > 10_000 {
        Err(VaultError::MinAmountOutBpsTooLarge)
    } else {
        let v = stored_or_new(stored, owner);
        Ok(
            Vault {
                owner: v.owner,
                balance: v.balance,
                schedule: Some(
                    new_schedule(
                        frequency,
                        amount_per_execution,
                        target_asset,
                        pool_address,
                        min_amount_out_bps,
                        current_ledger,
                    ),
                ),
                paused: v.paused,
            },
        )
    }
}

pub open spec fn set_paused_result<A>(stored: Option<Vault<A>>, paused: bool) -> Result<
    Vault<A>,
    VaultError,
> {
    match stored {
        None => Err(VaultError::VaultDoesNotExist),
        Some(v) => Ok(with_paused(v, paused)),
    }
}

pub open spec fn get_vault_result<A>(stored: Option<Vault<A>>) -> Result<Vault<A>, VaultError> {
    match stored {
        None => Err(VaultError::VaultDoesNotExist),
        Some(v) => Ok(v),
    }
}

/// The check that stops a scheduled swap at ledger `current_ledger`, in the
/// order in which the checks are made; `None` when the swap goes ahead.
pub open spec fn execute_swap_refusal<A>(
    stored_token: Option<A>,
    stored: Option<Vault<A>>,
    current_ledger: u32,
) -> Option<VaultError> {
    match stored {
        None => Some(VaultError::VaultDoesNotExist),
        Some(v) => if v.paused {
            Some(VaultError::SchedulePaused)
        } else {
            match v.schedule {
                None => Some(VaultError::NoScheduleConfigured),
                Some(s) => if current_ledger < s.next_execution_ledger {
                    Some(VaultError::ScheduleNotYetDue)
                } else if v.balance < s.amount_per_execution {
                    Some(VaultError::InsufficientBalanceForSwap)
                } else if stored_token is None {
                    Some(VaultError::NotInitialized)
                } else {
                    None
                },
            }
        },
    }
}

/// The vault after its schedule `s` executed at ledger `current_ledger`.
pub open spec fn after_swap<A>(v: Vault<A>, s: Schedule<A>, current_ledger: u32) -> Vault<A> {
    Vault {
        owner: v.owner,
        balance: (v.balance - s.amount_per_execution) as i128,
        schedule: Some(
            Schedule {
                frequency: s.frequency,
                amount_per_execution: s.amount_per_execution,
                target_asset: s.target_asset,
                last_execution_ledger: current_ledger,
                next_execution_ledger: (current_ledger + ledgers_between(s.frequency)) as u32,
                pool_address: s.pool_address,
                min_amount_out_bps: s.min_amount_out_bps,
            },
        ),
        paused: v.paused,
    }
}

/// The order sent to the pool for one execution of schedule `s`.
pub open spec fn order_for<A>(s: Schedule<A>) -> SwapOrder {
    SwapOrder {
        amount_in: s.amount_per_execution,
        min_amount_out: min_amount_out_for(
            s.amount_per_execution as int,
            s.min_amount_out_bps as int,
        ) as i128,
    }
}

/// A scheduled swap: the first refusal, or the vault to store, the order for
/// the pool, and the token to spend.
pub open spec fn execute_swap_result<A>(
    stored_token: Option<A>,
    stored: Option<Vault<A>>,
    current_ledger: u32,
) -> Result<(Vault<A>, SwapOrder, A), VaultError> {
    match execute_swap_refusal(stored_token, stored, current_ledger) {
        Some(e) => Err(e),
        None => {
            let v = stored->Some_0;
            let s = v.schedule->Some_0;
            Ok((after_swap(v, s, current_ledger), order_for(s), stored_token->Some_0))
        },
    }
}

/// When a scheduled swap goes ahead, its bookkeeping stays within the
/// machine integers: the new balance and the next execution ledger fit.
pub open spec fn execute_swap_fits<A>(
    stored_token: Option<A>,
    stored: Option<Vault<A>>,
    current_ledger: u32,
) -> bool {
    execute_swap_refusal(stored_token, stored, current_ledger) is None ==> {
        let v = stored->Some_0;
        let s = v.schedule->Some_0;
        &&& v.balance - s.amount_per_execution <= i128::MAX
        &&& current_ledger + ledgers_between(s.frequency) <= u32::MAX
    }
}

// ---------------------------------------------------------------------------
// The contract's operations.
// ---------------------------------------------------------------------------

/// The vault contract. Its storage holds the token that deposits move and,
/// per owner, one `Vault`.
pub struct DcaVaultContract;

impl DcaVaultContract {
    /// Ledgers between two executions of a schedule of the given frequency.
    pub fn ledgers_for(frequency: Frequency) -> (r: u32)
        ensures
            r == ledgers_between(frequency),
            frequency == Frequency::Daily ==> r == 17_280,
            frequency == Frequency::Weekly ==> r == 120_960,
            frequency == Frequency::Monthly ==> r == 518_400,
    {
        match frequency {
            Frequency::Daily => LEDGERS_PER_DAY,
            Frequency::Weekly => LEDGERS_PER_DAY * 7,
            Frequency::Monthly => LEDGERS_PER_DAY * 30,
        }
    }

    /// Whether a deposit of `amount`, if it goes ahead, keeps the balance
    /// within `i128`; a caller tests this before `deposit`, which requires it.
    pub fn deposit_fits<A>(stored_token: &Option<A>, stored: &Option<Vault<A>>, amount: i128) -> (r: bool)
        ensures
            r == (amount > 0 && stored_token is Some ==> match *stored {
                Some(v) => v.balance + amount <= i128::MAX,
                None => true,
            }),
    {
        if amount <= 0 || stored_token.is_none() {
            return true;
        }
        match stored {
            Some(v) => v.balance.checked_add(amount).is_some(),
            None => true,
        }
    }

    /// Whether the schedule that `create_schedule` would attach at
    /// `current_ledger` has a next execution ledger within `u32`; a caller
    /// tests this before `create_schedule`, which requires it.
    pub fn create_schedule_fits(
        frequency: Frequency,
        amount_per_execution: i128,
        min_amount_out_bps: u32,
        current_ledger: u32,
    ) -> (r: bool)
        ensures
            r == (amount_per_execution > 0 && min_amount_out_bps <= 10_000 ==> current_ledger
                + ledgers_between(frequency) <= u32::MAX),
    {
        if amount_per_execution <= 0 || min_amount_out_bps > 10_000 {
            return true;
        }
        current_ledger.checked_add(Self::ledgers_for(frequency)).is_some()
    }

    /// Whether a scheduled swap at `current_ledger`, if it goes ahead, keeps
    /// its bookkeeping within the machine integers; a caller tests this
    /// before `execute_swap`, which requires it.
    pub fn execute_swap_fits<A>(
        stored_token: &Option<A>,
        stored: &Option<Vault<A>>,
        current_ledger: u32,
    ) -> (r: bool)
        ensures
            r == execute_swap_fits(*stored_token, *stored, current_ledger),
    {
        match stored {
            None => true,
            Some(v) => {
                if v.paused {
                    return true;
                }
                match &v.schedule {
                    None => true,
                    Some(s) => {
                        if current_ledger < s.next_execution_ledger
                            || v.balance < s.amount_per_execution || stored_token.is_none() {
                            return true;
                        }
                        v.balance.checked_sub(s.amount_per_execution).is_some()
                            && current_ledger.checked_add(Self::ledgers_for(s.frequency)).is_some()
                    },
                }
            },
        }
    }

    /// One-time setup: the token to record, given what the storage holds.
    pub fn initialize<A>(stored_token: Option<A>, token: A) -> (r: Result<A, VaultError>)
        ensures
            r == initialize_result(stored_token, token),
            stored_token is Some ==> r == Err::<A, VaultError>(VaultError::AlreadyInitialized),
            stored_token is None ==> r == Ok::<A, VaultError>(token),
    {
        match stored_token {
            Some(_) => Err(VaultError::AlreadyInitialized),
            None => Ok(token),
        }
    }

    /// The token that deposits and withdrawals move.
    pub fn token_address<A>(stored_token: Option<A>) -> (r: Result<A, VaultError>)
        ensures
            r == token_address_result(stored_token),
            stored_token matches Some(t) ==> r == Ok::<A, VaultError>(t),
            stored_token is None ==> r == Err::<A, VaultError>(VaultError::NotInitialized),
    {
        match stored_token {
            Some(t) => Ok(t),
            None => Err(VaultError::NotInitialized),
        }
    }

    /// The stored vault, or a new empty vault for `owner`.
    pub fn load_or_create_vault<A>(stored: Option<Vault<A>>, owner: A) -> (v: Vault<A>)
        ensures
            v == stored_or_new(stored, owner),
            stored matches Some(s) ==> v == s,
            stored is None ==> v.owner == owner && v.balance == 0 && v.schedule is None && !v.paused,
    {
        match stored {
            Some(v) => v,
            None => Vault { owner, balance: 0, schedule: None, paused: false },
        }
    }

    /// Credits `amount` to `owner`'s vault, creating it if needed, and names
    /// the configured token, of which the caller moves `amount` from `owner`
    /// to the contract.
    pub fn deposit<A>(stored_token: Option<A>, stored: Option<Vault<A>>, owner: A, amount: i128) -> (r:
        Result<(Vault<A>, A), VaultError>)
        requires
            amount > 0 && stored_token is Some ==> stored_or_new(stored, owner).balance + amount
                <= i128::MAX,
        ensures
            r == deposit_result(stored_token, stored, owner, amount),
            r is Ok ==> r->Ok_0.0.balance == stored_or_new(stored, owner).balance + amount,
            r is Ok <==> amount > 0 && stored_token is Some,
            r matches Ok(res) ==> {
                &&& Some(res.1) == stored_token
                &&& stored matches Some(v) ==> res.0.owner == v.owner && res.0.schedule
                    == v.schedule && res.0.paused == v.paused
                &&& stored is None ==> res.0.owner == owner && res.0.schedule is None
                    && !res.0.paused
            },
            amount <= 0 ==> r == Err::<(Vault<A>, A), VaultError>(VaultError::AmountNotPositive),
            amount > 0 && stored_token is None ==> r == Err::<(Vault<A>, A), VaultError>(
                VaultError::NotInitialized,
            ),
    {
        if amount <= 0 {
            return Err(VaultError::AmountNotPositive);
        }
        let token = match Self::token_address(stored_token) {
            Ok(t) => t,
            Err(e) => {
                return Err(e);
            },
        };
        let mut vault = Self::load_or_create_vault(stored, owner);
        vault.balance = vault.balance + amount;
        Ok((vault, token))
    }

    /// Debits `amount` from the stored vault and names the configured token,
    /// of which the caller then moves `amount` from the contract back to the
    /// owner.
    pub fn withdraw<A>(stored_token: Option<A>, stored: Option<Vault<A>>, amount: i128) -> (r: Result<
        (Vault<A>, A),
        VaultError,
    >)
        ensures
            r == withdraw_result(stored_token, stored, amount),
            r is Ok ==> r->Ok_0.0.balance == stored->Some_0.balance - amount,
            r is Ok <==> amount > 0 && stored is Some && amount <= stored->Some_0.balance
                && stored_token is Some,
            amount <= 0 ==> r == Err::<(Vault<A>, A), VaultError>(VaultError::AmountNotPositive),
            amount > 0 && stored is None ==> r == Err::<(Vault<A>, A), VaultError>(
                VaultError::VaultDoesNotExist,
            ),
            amount > 0 && stored is Some && amount > stored->Some_0.balance ==> r == Err::<
                (Vault<A>, A),
                VaultError,
            >(VaultError::WithdrawalExceedsBalance),
            amount > 0 && stored is Some && amount <= stored->Some_0.balance && stored_token is None
                ==> r == Err::<(Vault<A>, A), VaultError>(VaultError::NotInitialized),
            r matches Ok(res) ==> {
                &&& Some(res.1) == stored_token
                &&& res.0.owner == stored->Some_0.owner
                &&& res.0.schedule == stored->Some_0.schedule
                &&& res.0.paused == stored->Some_0.paused
            },
    {
        if amount <= 0 {
            return Err(VaultError::AmountNotPositive);
        }
        let mut vault = match Self::get_vault(stored) {
            Ok(v) => v,
            Err(e) => {
                return Err(e);
            },
        };
        if amount > vault.balance {
            return Err(VaultError::WithdrawalExceedsBalance);
        }
        vault.balance = vault.balance - amount;
        let token = match Self::token_address(stored_token) {
            Ok(t) => t,
            Err(e) => {
                return Err(e);
            },
        };
        Ok((vault, token))
    }

    /// Creates or replaces `owner`'s schedule at ledger `current_ledger`.
    pub fn create_schedule<A>(
        stored: Option<Vault<A>>,
        owner: A,
        frequency: Frequency,
        amount_per_execution: i128,
        target_asset: A,
        pool_address: A,
        min_amount_out_bps: u32,
        current_ledger: u32,
    ) -> (r: Result<Vault<A>, VaultError>)
        requires
            amount_per_execution > 0 && min_amount_out_bps <= 10_000 ==> current_ledger
                + ledgers_between(frequency) <= u32::MAX,
        ensures
            r == create_schedule_result(
                stored,
                owner,
                frequency,
                amount_per_execution,
                target_asset,
                pool_address,
                min_amount_out_bps,
                current_ledger,
            ),
            r is Ok <==> amount_per_execution > 0 && min_amount_out_bps <= 10_000,
            amount_per_execution <= 0 ==> r == Err::<Vault<A>, VaultError>(
                VaultError::AmountPerExecutionNotPositive,
            ),
            amount_per_execution > 0 && min_amount_out_bps > 10_000 ==> r == Err::<
                Vault<A>,
                VaultError,
            >(VaultError::MinAmountOutBpsTooLarge),
            r matches Ok(v) ==> {
                &&& v.schedule matches Some(sch) && sch.frequency == frequency
                    && sch.amount_per_execution == amount_per_execution && sch.target_asset
                    == target_asset && sch.pool_address == pool_address && sch.min_amount_out_bps
                    == min_amount_out_bps && sch.last_execution_ledger == current_ledger
                    && sch.next_execution_ledger == current_ledger + ledgers_between(frequency)
                &&& stored matches Some(old) ==> v.owner == old.owner && v.balance == old.balance
                    && v.paused == old.paused
                &&& stored is None ==> v.owner == owner && v.balance == 0 && !v.paused
            },
    {
        if amount_per_execution <= 0 {
            return Err(VaultError::AmountPerExecutionNotPositive);
        }
        if min_amount_out_bps > 10_000 {
            return Err(VaultError::MinAmountOutBpsTooLarge);
        }
        let mut vault = Self::load_or_create_vault(stored, owner);
        let period = Self::ledgers_for(frequency);
        vault.schedule = Some(
            Schedule {
                frequency,
                amount_per_execution,
                target_asset,
                last_execution_ledger: current_ledger,
                next_execution_ledger: current_ledger + period,
                pool_address,
                min_amount_out_bps,
            },
        );
        Ok(vault)
    }

    /// Halts scheduled execution without clearing the schedule.
    pub fn pause_schedule<A>(stored: Option<Vault<A>>) -> (r: Result<Vault<A>, VaultError>)
        ensures
            r == set_paused_result(stored, true),
            r is Ok <==> stored is Some,
            stored is None ==> r == Err::<Vault<A>, VaultError>(VaultError::VaultDoesNotExist),
            r matches Ok(v) ==> v.paused && v.owner == stored->Some_0.owner && v.balance
                == stored->Some_0.balance && v.schedule == stored->Some_0.schedule,
    {
        let mut vault = match Self::get_vault(stored) {
            Ok(v) => v,
            Err(e) => {
                return Err(e);
            },
        };
        vault.paused = true;
        Ok(vault)
    }

    /// Re-enables a paused schedule.
    pub fn resume_schedule<A>(stored: Option<Vault<A>>) -> (r: Result<Vault<A>, VaultError>)
        ensures
            r == set_paused_result(stored, false),
            r is Ok <==> stored is Some,
            stored is None ==> r == Err::<Vault<A>, VaultError>(VaultError::VaultDoesNotExist),
            r matches Ok(v) ==> !v.paused && v.owner == stored->Some_0.owner && v.balance
                == stored->Some_0.balance && v.schedule == stored->Some_0.schedule,
    {
        let mut vault = match Self::get_vault(stored) {
            Ok(v) => v,
            Err(e) => {
                return Err(e);
            },
        };
        vault.paused = false;
        Ok(vault)
    }

    /// The stored vault; refused when the owner has none.
    pub fn get_vault<A>(stored: Option<Vault<A>>) -> (r: Result<Vault<A>, VaultError>)
        ensures
            r == get_vault_result(stored),
            stored matches Some(v) ==> r == Ok::<Vault<A>, VaultError>(v),
            stored is None ==> r == Err::<Vault<A>, VaultError>(VaultError::VaultDoesNotExist),
    {
        match stored {
            Some(v) => Ok(v),
            None => Err(VaultError::VaultDoesNotExist),
        }
    }

    /// Decides one execution of the stored vault's schedule at ledger
    /// `current_ledger`: the vault to store, the swap to ask the pool for, and
    /// the token to spend. Anyone may trigger it; the checks below are what
    /// gate it.
    pub fn execute_swap<A>(stored_token: Option<A>, stored: Option<Vault<A>>, current_ledger: u32) -> (r:
        Result<(Vault<A>, SwapOrder, A), VaultError>)
        requires
            execute_swap_fits(stored_token, stored, current_ledger),
        ensures
            r == execute_swap_result(stored_token, stored, current_ledger),
            r is Ok ==> r->Ok_0.0.balance == stored->Some_0.balance - r->Ok_0.1.amount_in,
            r is Ok <==> (stored is Some && !stored->Some_0.paused && stored->Some_0.schedule is Some
                && current_ledger >= stored->Some_0.schedule->Some_0.next_execution_ledger
                && stored->Some_0.balance >= stored->Some_0.schedule->Some_0.amount_per_execution
                && stored_token is Some),
            stored is None ==> r == Err::<(Vault<A>, SwapOrder, A), VaultError>(
                VaultError::VaultDoesNotExist,
            ),
            stored is Some && stored->Some_0.paused ==> r == Err::<
                (Vault<A>, SwapOrder, A),
                VaultError,
            >(VaultError::SchedulePaused),
            stored is Some && !stored->Some_0.paused && stored->Some_0.schedule is None ==> r
                == Err::<(Vault<A>, SwapOrder, A), VaultError>(VaultError::NoScheduleConfigured),
            stored is Some && !stored->Some_0.paused && stored->Some_0.schedule is Some
                && current_ledger < stored->Some_0.schedule->Some_0.next_execution_ledger ==> r
                == Err::<(Vault<A>, SwapOrder, A), VaultError>(VaultError::ScheduleNotYetDue),
            stored is Some && !stored->Some_0.paused && stored->Some_0.schedule is Some
                && current_ledger >= stored->Some_0.schedule->Some_0.next_execution_ledger
                && stored->Some_0.balance < stored->Some_0.schedule->Some_0.amount_per_execution
                ==> r == Err::<(Vault<A>, SwapOrder, A), VaultError>(
                VaultError::InsufficientBalanceForSwap,
            ),
            stored is Some && !stored->Some_0.paused && stored->Some_0.schedule is Some
                && current_ledger >= stored->Some_0.schedule->Some_0.next_execution_ledger
                && stored->Some_0.balance >= stored->Some_0.schedule->Some_0.amount_per_execution
                && stored_token is None ==> r == Err::<(Vault<A>, SwapOrder, A), VaultError>(
                VaultError::NotInitialized,
            ),
            r matches Ok(res) ==> {
                let v = stored->Some_0;
                let s = v.schedule->Some_0;
                &&& Some(res.2) == stored_token
                &&& res.0.owner == v.owner
                &&& res.0.paused == v.paused
                &&& res.1.amount_in == s.amount_per_execution
                &&& res.1.min_amount_out == min_amount_out_for(
                    s.amount_per_execution as int,
                    s.min_amount_out_bps as int,
                )
                &&& res.0.schedule matches Some(ns) && ns.frequency == s.frequency
                    && ns.amount_per_execution == s.amount_per_execution && ns.target_asset
                    == s.target_asset && ns.pool_address == s.pool_address
                    && ns.min_amount_out_bps == s.min_amount_out_bps && ns.last_execution_ledger
                    == current_ledger && ns.next_execution_ledger == current_ledger
                    + ledgers_between(s.frequency)
            },
    {
        let mut vault = match Self::get_vault(stored) {
            Ok(v) => v,
            Err(e) => {
                return Err(e);
            },
        };
        if vault.paused {
            return Err(VaultError::SchedulePaused);
        }
        let mut schedule = match vault.schedule {
            Some(s) => s,
            None => {
                return Err(VaultError::NoScheduleConfigured);
            },
        };
        if current_ledger < schedule.next_execution_ledger {
            return Err(VaultError::ScheduleNotYetDue);
        }
        if vault.balance < schedule.amount_per_execution {
            return Err(VaultError::InsufficientBalanceForSwap);
        }
        let token_in = match Self::token_address(stored_token) {
            Ok(t) => t,
            Err(e) => {
                return Err(e);
            },
        };
        let amount_in = schedule.amount_per_execution;
        let order = SwapOrder {
            amount_in,
            min_amount_out: min_amount_out(amount_in, schedule.min_amount_out_bps),
        };
        vault.balance = vault.balance - amount_in;
        let period = Self::ledgers_for(schedule.frequency);
        schedule.last_execution_ledger = current_ledger;
        schedule.next_execution_ledger = current_ledger + period;
        vault.schedule = Some(schedule);
        Ok((vault, order, token_in))
    }
}

} // verus!
