//! Properties of the vault that span operations or hold in every state.
use vstd::prelude::*;
use crate::schedule::{Frequency, ledgers_between, min_amount_out_for};
use crate::pool::{PoolError, pool_swap_result};
use crate::vault::{
    SwapOrder, Vault, VaultError, create_schedule_result, deposit_result, execute_swap_fits,
    execute_swap_refusal, execute_swap_result, initialize_result, set_paused_result,
    stored_or_new, with_balance, with_paused, withdraw_result,
};

verus! {

/// A stored vault that is absent or well formed.
pub open spec fn stored_wf<A>(stored: Option<Vault<A>>) -> bool {
    stored matches Some(v) ==> v.wf()
}

/// Every period is positive and the periods grow with the frequency.
pub proof fn periods_are_positive_and_ordered()
    ensures
        ledgers_between(Frequency::Daily) > 0,
        ledgers_between(Frequency::Daily) < ledgers_between(Frequency::Weekly),
        ledgers_between(Frequency::Weekly) < ledgers_between(Frequency::Monthly),
        ledgers_between(Frequency::Weekly) == 7 * ledgers_between(Frequency::Daily),
        ledgers_between(Frequency::Monthly) == 30 * ledgers_between(Frequency::Daily),
{
}

/// A deposit keeps a well-formed vault well formed.
pub proof fn deposit_keeps_wf<A>(
    stored_token: Option<A>,
    stored: Option<Vault<A>>,
    owner: A,
    amount: i128,
)
    requires
        stored_wf(stored),
        amount > 0 && stored_token is Some ==> stored_or_new(stored, owner).balance + amount
            <= i128::MAX,
    ensures
        deposit_result(stored_token, stored, owner, amount) matches Ok(r) ==> r.0.wf(),
{
}

/// A withdrawal keeps a well-formed vault well formed; in particular it never
/// leaves a negative balance.
pub proof fn withdraw_keeps_wf<A>(stored_token: Option<A>, stored: Option<Vault<A>>, amount: i128)
    requires
        stored_wf(stored),
    ensures
        withdraw_result(stored_token, stored, amount) matches Ok(r) ==> r.0.wf() && r.0.balance
            >= 0,
{
}

/// Creating a schedule keeps a well-formed vault well formed.
pub proof fn create_schedule_keeps_wf<A>(
    stored: Option<Vault<A>>,
    owner: A,
    frequency: Frequency,
    amount_per_execution: i128,
    target_asset: A,
    pool_address: A,
    min_amount_out_bps: u32,
    current_ledger: u32,
)
    requires
        stored_wf(stored),
        current_ledger + ledgers_between(frequency) <= u32::MAX,
    ensures
        create_schedule_result(
            stored,
            owner,
            frequency,
            amount_per_execution,
            target_asset,
            pool_address,
            min_amount_out_bps,
            current_ledger,
        ) matches Ok(v) ==> v.wf(),
{
}

/// Pausing and resuming keep a well-formed vault well formed.
pub proof fn set_paused_keeps_wf<A>(stored: Option<Vault<A>>, paused: bool)
    requires
        stored_wf(stored),
    ensures
        set_paused_result(stored, paused) matches Ok(v) ==> v.wf(),
{
}

/// An executed swap keeps a well-formed vault well formed.
pub proof fn execute_swap_keeps_wf<A>(
    stored_token: Option<A>,
    stored: Option<Vault<A>>,
    current_ledger: u32,
)
    requires
        stored_wf(stored),
        execute_swap_fits(stored_token, stored, current_ledger),
    ensures
        execute_swap_result(stored_token, stored, current_ledger) matches Ok(r) ==> r.0.wf(),
{
}

/// Withdrawing what was just deposited gives back the vault as it was, and
/// both calls move the same amount of the same token, in opposite directions.
pub proof fn withdraw_undoes_deposit<A>(token: A, v: Vault<A>, owner: A, amount: i128)
    requires
        v.balance >= 0,
        amount > 0,
        v.balance + amount <= i128::MAX,
    ensures
        deposit_result(Some(token), Some(v), owner, amount) == Ok::<(Vault<A>, A), VaultError>(
            (with_balance(v, v.balance + amount), token),
        ),
        withdraw_result(
            Some(token),
            Some(deposit_result(Some(token), Some(v), owner, amount)->Ok_0.0),
            amount,
        ) == Ok::<(Vault<A>, A), VaultError>((v, token)),
{
}

/// A withdrawal from an existing vault is refused as over the balance
/// exactly when it asks for more than the balance.
pub proof fn withdraw_refused_iff_over_balance<A>(
    stored_token: Option<A>,
    v: Vault<A>,
    amount: i128,
)
    requires
        amount > 0,
    ensures
        withdraw_result(stored_token, Some(v), amount) == Err::<(Vault<A>, A), VaultError>(
            VaultError::WithdrawalExceedsBalance,
        ) <==> amount > v.balance,
{
}

/// Without a configured token, no deposit, withdrawal or scheduled swap goes
/// ahead.
pub proof fn nothing_moves_before_initialize<A>(
    stored: Option<Vault<A>>,
    owner: A,
    amount: i128,
    current_ledger: u32,
)
    ensures
        deposit_result(None, stored, owner, amount) is Err,
        withdraw_result(None, stored, amount) is Err,
        execute_swap_result(None, stored, current_ledger) is Err,
        amount > 0 ==> deposit_result(None, stored, owner, amount) == Err::<
            (Vault<A>, A),
            VaultError,
        >(VaultError::NotInitialized),
{
}

/// A schedule never executes twice in one ledger: right after an execution
/// at `current_ledger`, another at the same ledger is refused as not due.
pub proof fn no_second_swap_in_same_ledger<A>(
    stored_token: Option<A>,
    stored: Option<Vault<A>>,
    current_ledger: u32,
)
    requires
        execute_swap_fits(stored_token, stored, current_ledger),
        execute_swap_result(stored_token, stored, current_ledger) is Ok,
    ensures
        execute_swap_result(
            stored_token,
            Some(execute_swap_result(stored_token, stored, current_ledger)->Ok_0.0),
            current_ledger,
        ) == Err::<(Vault<A>, SwapOrder, A), VaultError>(VaultError::ScheduleNotYetDue),
{
    periods_are_positive_and_ordered();
}

/// After an execution at `current_ledger`, the schedule is due again exactly
/// one period later: refused as not due one ledger before, and not refused
/// as not due from then on.
pub proof fn next_swap_due_after_one_period<A>(
    stored_token: Option<A>,
    stored: Option<Vault<A>>,
    current_ledger: u32,
    later: u32,
)
    requires
        execute_swap_fits(stored_token, stored, current_ledger),
        execute_swap_result(stored_token, stored, current_ledger) is Ok,
    ensures
        ({
            let v = execute_swap_result(stored_token, stored, current_ledger)->Ok_0.0;
            let period = ledgers_between(v.schedule->Some_0.frequency);
            &&& later < current_ledger + period ==> execute_swap_refusal(
                stored_token,
                Some(v),
                later,
            ) == Some(VaultError::ScheduleNotYetDue)
            &&& later >= current_ledger + period ==> execute_swap_refusal(
                stored_token,
                Some(v),
                later,
            ) != Some(VaultError::ScheduleNotYetDue)
        }),
{
}

/// A paused vault never swaps, whatever the ledger.
pub proof fn paused_vault_never_swaps<A>(stored_token: Option<A>, v: Vault<A>, current_ledger: u32)
    requires
        v.paused,
    ensures
        execute_swap_result(stored_token, Some(v), current_ledger) == Err::<
            (Vault<A>, SwapOrder, A),
            VaultError,
        >(VaultError::SchedulePaused),
{
}

/// Pausing halts execution without moving funds or deleting the schedule.
pub proof fn pause_keeps_funds_and_schedule<A>(v: Vault<A>)
    ensures
        set_paused_result(Some(v), true) matches Ok(p) && p.paused && p.balance == v.balance
            && p.schedule == v.schedule && p.owner == v.owner,
{
}

/// Pausing and then resuming leaves the vault as it was, unpaused; pausing
/// twice is the same as pausing once.
pub proof fn resume_undoes_pause<A>(v: Vault<A>)
    ensures
        set_paused_result(Some(set_paused_result(Some(v), true)->Ok_0), false) == Ok::<
            Vault<A>,
            VaultError,
        >(with_paused(v, false)),
        !v.paused ==> set_paused_result(Some(set_paused_result(Some(v), true)->Ok_0), false)
            == Ok::<Vault<A>, VaultError>(v),
        set_paused_result(Some(set_paused_result(Some(v), true)->Ok_0), true) == set_paused_result(
            Some(v),
            true,
        ),
{
}

/// Attaching or replacing a schedule moves no funds and keeps the owner and
/// the paused flag.
pub proof fn create_schedule_keeps_funds<A>(
    stored: Option<Vault<A>>,
    owner: A,
    frequency: Frequency,
    amount_per_execution: i128,
    target_asset: A,
    pool_address: A,
    min_amount_out_bps: u32,
    current_ledger: u32,
)
    ensures
        create_schedule_result(
            stored,
            owner,
            frequency,
            amount_per_execution,
            target_asset,
            pool_address,
            min_amount_out_bps,
            current_ledger,
        ) matches Ok(v) ==> {
            let before = stored_or_new(stored, owner);
            &&& v.balance == before.balance
            &&& v.owner == before.owner
            &&& v.paused == before.paused
        },
{
}

/// One execution spends exactly the schedule's amount of the configured
/// token, and the slippage floor sent to the pool lies between zero and that
/// amount.
pub proof fn swap_spends_the_scheduled_amount<A>(
    stored_token: Option<A>,
    stored: Option<Vault<A>>,
    current_ledger: u32,
)
    requires
        stored_wf(stored),
        execute_swap_fits(stored_token, stored, current_ledger),
    ensures
        execute_swap_result(stored_token, stored, current_ledger) matches Ok(r) ==> {
            let before = stored->Some_0;
            let s = before.schedule->Some_0;
            &&& stored_token == Some(r.2)
            &&& r.1.amount_in == s.amount_per_execution
            &&& r.0.balance == before.balance - r.1.amount_in
            &&& 0 <= r.1.min_amount_out <= r.1.amount_in
        },
{
    if execute_swap_result(stored_token, stored, current_ledger) is Ok {
        let s = stored->Some_0.schedule->Some_0;
        min_amount_out_in_range(s.amount_per_execution as int, s.min_amount_out_bps as int);
    }
}

/// Under a slippage floor of at most 100%, the least accepted output of a
/// non-negative input lies between zero and the input.
pub proof fn min_amount_out_in_range(amount_in: int, bps: int)
    requires
        0 <= amount_in <= i128::MAX,
        0 <= bps <= 10_000,
    ensures
        0 <= min_amount_out_for(amount_in, bps) <= amount_in,
{
    assert(0 <= amount_in * bps <= amount_in * 10_000) by (nonlinear_arith)
        requires
            0 <= amount_in,
            0 <= bps <= 10_000,
    ;
}

/// The contract is set up once: a second setup is refused, whatever token it names.
pub proof fn initialize_only_once<A>(token: A, other: A)
    ensures
        initialize_result(None, token) == Ok::<A, VaultError>(token),
        initialize_result(Some(token), other) == Err::<A, VaultError>(
            VaultError::AlreadyInitialized,
        ),
{
}

// ---------------------------------------------------------------------------
// Sequences of calls on behalf of one owner.
// ---------------------------------------------------------------------------

/// One call to the vault contract on behalf of one owner.
pub enum VaultOp<A> {
    Deposit(i128),
    Withdraw(i128),
    /// Frequency, amount per execution, target asset, pool, slippage floor in
    /// basis points, and the ledger of the call.
    CreateSchedule(Frequency, i128, A, A, u32, u32),
    Pause,
    Resume,
    /// The ledger of the call.
    ExecuteSwap(u32),
}

/// The vault that `op` stores, or the error with which it is refused, given
/// the configured token `stored_token`.
pub open spec fn op_result<A>(
    stored_token: Option<A>,
    stored: Option<Vault<A>>,
    owner: A,
    op: VaultOp<A>,
) -> Result<Vault<A>, VaultError> {
    match op {
        VaultOp::Deposit(amount) => match deposit_result(stored_token, stored, owner, amount) {
            Ok(r) => Ok(r.0),
            Err(e) => Err(e),
        },
        VaultOp::Withdraw(amount) => match withdraw_result(stored_token, stored, amount) {
            Ok(r) => Ok(r.0),
            Err(e) => Err(e),
        },
        VaultOp::CreateSchedule(f, amount, target, pool, bps, ledger) => create_schedule_result(
            stored,
            owner,
            f,
            amount,
            target,
            pool,
            bps,
            ledger,
        ),
        VaultOp::Pause => set_paused_result(stored, true),
        VaultOp::Resume => set_paused_result(stored, false),
        VaultOp::ExecuteSwap(ledger) => match execute_swap_result(stored_token, stored, ledger) {
            Ok(r) => Ok(r.0),
            Err(e) => Err(e),
        },
    }
}

/// The call stays within the machine integers (what each operation requires).
pub open spec fn op_fits<A>(
    stored_token: Option<A>,
    stored: Option<Vault<A>>,
    owner: A,
    op: VaultOp<A>,
) -> bool {
    match op {
        VaultOp::Deposit(amount) => amount > 0 && stored_token is Some ==> stored_or_new(
            stored,
            owner,
        ).balance + amount <= i128::MAX,
        VaultOp::CreateSchedule(f, amount, _, _, bps, ledger) => amount > 0 && bps <= 10_000
            ==> ledger + ledgers_between(f) <= u32::MAX,
        VaultOp::ExecuteSwap(ledger) => execute_swap_fits(stored_token, stored, ledger),
        _ => true,
    }
}

/// Tokens that `op` moves into the contract for this vault (negative: out of
/// it, to the owner or to the pool); nothing when refused.
pub open spec fn op_flow<A>(
    stored_token: Option<A>,
    stored: Option<Vault<A>>,
    owner: A,
    op: VaultOp<A>,
) -> int {
    if op_result(stored_token, stored, owner, op) is Err {
        0
    } else {
        match op {
            VaultOp::Deposit(amount) => amount as int,
            VaultOp::Withdraw(amount) => -amount,
            VaultOp::ExecuteSwap(_) => -(stored->Some_0.schedule->Some_0.amount_per_execution),
            _ => 0,
        }
    }
}

/// What the storage holds for the owner after `op`: a refused call changes nothing.
pub open spec fn apply_op<A>(
    stored_token: Option<A>,
    stored: Option<Vault<A>>,
    owner: A,
    op: VaultOp<A>,
) -> Option<Vault<A>> {
    match op_result(stored_token, stored, owner, op) {
        Ok(v) => Some(v),
        Err(_) => stored,
    }
}

/// What the storage holds for the owner after the calls `ops`, in order.
pub open spec fn run_ops<A>(
    stored_token: Option<A>,
    stored: Option<Vault<A>>,
    owner: A,
    ops: Seq<VaultOp<A>>,
) -> Option<Vault<A>>
    decreases ops.len(),
{
    if ops.len() == 0 {
        stored
    } else {
        apply_op(stored_token, run_ops(stored_token, stored, owner, ops.drop_last()), owner, ops.last())
    }
}

/// Tokens moved into the contract for this vault by the calls `ops`, in total.
pub open spec fn total_flow<A>(
    stored_token: Option<A>,
    stored: Option<Vault<A>>,
    owner: A,
    ops: Seq<VaultOp<A>>,
) -> int
    decreases ops.len(),
{
    if ops.len() == 0 {
        0
    } else {
        total_flow(stored_token, stored, owner, ops.drop_last()) + op_flow(
            stored_token,
            run_ops(stored_token, stored, owner, ops.drop_last()),
            owner,
            ops.last(),
        )
    }
}

/// Every call of `ops` stays within the machine integers.
pub open spec fn all_fit<A>(
    stored_token: Option<A>,
    stored: Option<Vault<A>>,
    owner: A,
    ops: Seq<VaultOp<A>>,
) -> bool
    decreases ops.len(),
{
    if ops.len() == 0 {
        true
    } else {
        all_fit(stored_token, stored, owner, ops.drop_last()) && op_fits(
            stored_token,
            run_ops(stored_token, stored, owner, ops.drop_last()),
            owner,
            ops.last(),
        )
    }
}

/// The balance the storage shows for the owner (none stored: zero).
pub open spec fn stored_balance<A>(stored: Option<Vault<A>>) -> int {
    match stored {
        Some(v) => v.balance as int,
        None => 0,
    }
}

/// One call keeps the stored vault well formed and changes its balance by
/// exactly the tokens it moves.
pub proof fn op_keeps_wf_and_accounts<A>(
    stored_token: Option<A>,
    stored: Option<Vault<A>>,
    owner: A,
    op: VaultOp<A>,
)
    requires
        stored_wf(stored),
        op_fits(stored_token, stored, owner, op),
    ensures
        stored_wf(apply_op(stored_token, stored, owner, op)),
        stored_balance(apply_op(stored_token, stored, owner, op)) == stored_balance(stored)
            + op_flow(stored_token, stored, owner, op),
{
    match op {
        VaultOp::Deposit(amount) => deposit_keeps_wf(stored_token, stored, owner, amount),
        VaultOp::Withdraw(amount) => withdraw_keeps_wf(stored_token, stored, amount),
        VaultOp::CreateSchedule(f, amount, target, pool, bps, ledger) => {
            if amount > 0 && bps <= 10_000 {
                create_schedule_keeps_wf(stored, owner, f, amount, target, pool, bps, ledger);
            }
        },
        VaultOp::Pause => set_paused_keeps_wf(stored, true),
        VaultOp::Resume => set_paused_keeps_wf(stored, false),
        VaultOp::ExecuteSwap(ledger) => execute_swap_keeps_wf(stored_token, stored, ledger),
    }
}

/// Over any sequence of calls for one owner, the stored vault stays well
/// formed, and its balance is what it started with plus all that was
/// deposited, minus all that was withdrawn and all that scheduled swaps spent.
pub proof fn balance_is_net_of_all_flows<A>(
    stored_token: Option<A>,
    stored: Option<Vault<A>>,
    owner: A,
    ops: Seq<VaultOp<A>>,
)
    requires
        stored_wf(stored),
        all_fit(stored_token, stored, owner, ops),
    ensures
        stored_wf(run_ops(stored_token, stored, owner, ops)),
        stored_balance(run_ops(stored_token, stored, owner, ops)) == stored_balance(stored)
            + total_flow(stored_token, stored, owner, ops),
        stored_balance(run_ops(stored_token, stored, owner, ops)) >= 0,
    decreases ops.len(),
{
    if ops.len() > 0 {
        balance_is_net_of_all_flows(stored_token, stored, owner, ops.drop_last());
        op_keeps_wf_and_accounts(
            stored_token,
            run_ops(stored_token, stored, owner, ops.drop_last()),
            owner,
            ops.last(),
        );
    }
}

/// No call of `ops` attaches or replaces a schedule.
pub open spec fn keeps_schedule_settings<A>(ops: Seq<VaultOp<A>>) -> bool {
    forall|i: int| 0 <= i < ops.len() ==> !(#[trigger] ops[i] is CreateSchedule)
}

/// Calls that do not replace the schedule keep a stored vault and its
/// schedule's frequency, and never move its next execution ledger back.
pub proof fn next_execution_never_moves_back<A>(
    stored_token: Option<A>,
    v: Vault<A>,
    owner: A,
    ops: Seq<VaultOp<A>>,
)
    requires
        v.schedule is Some,
        all_fit(stored_token, Some(v), owner, ops),
        keeps_schedule_settings(ops),
    ensures
        run_ops(stored_token, Some(v), owner, ops) matches Some(w) && w.schedule matches Some(s)
            && s.frequency == v.schedule->Some_0.frequency && s.next_execution_ledger
            >= v.schedule->Some_0.next_execution_ledger,
    decreases ops.len(),
{
    if ops.len() > 0 {
        let init = ops.drop_last();
        assert forall|i: int| 0 <= i < init.len() implies !(#[trigger] init[i] is CreateSchedule) by {
            assert(init[i] == ops[i]);
        }
        next_execution_never_moves_back(stored_token, v, owner, init);
        assert(!(ops[ops.len() - 1] is CreateSchedule));
    }
}

/// A schedule runs at most once per period: after an execution at
/// `current_ledger`, whatever deposits, withdrawals, pauses, resumes and
/// further swap attempts follow (so long as the schedule is not replaced),
/// no swap goes ahead before `current_ledger` plus one period, and one that
/// is not stopped by a pause is refused as not due.
pub proof fn schedule_runs_at_most_once_per_period<A>(
    stored_token: Option<A>,
    stored: Option<Vault<A>>,
    owner: A,
    current_ledger: u32,
    ops: Seq<VaultOp<A>>,
    later: u32,
)
    requires
        execute_swap_fits(stored_token, stored, current_ledger),
        execute_swap_result(stored_token, stored, current_ledger) is Ok,
        all_fit(
            stored_token,
            Some(execute_swap_result(stored_token, stored, current_ledger)->Ok_0.0),
            owner,
            ops,
        ),
        keeps_schedule_settings(ops),
        later < current_ledger + ledgers_between(stored->Some_0.schedule->Some_0.frequency),
    ensures
        ({
            let w = run_ops(
                stored_token,
                Some(execute_swap_result(stored_token, stored, current_ledger)->Ok_0.0),
                owner,
                ops,
            );
            &&& execute_swap_result(stored_token, w, later) is Err
            &&& !w->Some_0.paused ==> execute_swap_refusal(stored_token, w, later) == Some(
                VaultError::ScheduleNotYetDue,
            )
        }),
{
    let v = execute_swap_result(stored_token, stored, current_ledger)->Ok_0.0;
    next_execution_never_moves_back(stored_token, v, owner, ops);
}

// ---------------------------------------------------------------------------
// The contract's holdings against all vaults.
// ---------------------------------------------------------------------------

/// The sum of the balances of `vaults`.
pub open spec fn sum_balances<A>(vaults: Seq<Vault<A>>) -> int
    decreases vaults.len(),
{
    if vaults.len() == 0 {
        0
    } else {
        sum_balances(vaults.drop_last()) + vaults.last().balance
    }
}

/// Replacing one vault changes the sum by the difference of the two balances.
pub proof fn sum_balances_update<A>(vaults: Seq<Vault<A>>, i: int, v: Vault<A>)
    requires
        0 <= i < vaults.len(),
    ensures
        sum_balances(vaults.update(i, v)) == sum_balances(vaults) - vaults[i].balance + v.balance,
    decreases vaults.len(),
{
    let u = vaults.update(i, v);
    if i == vaults.len() - 1 {
        assert(u.drop_last() =~= vaults.drop_last());
    } else {
        sum_balances_update(vaults.drop_last(), i, v);
        assert(u.drop_last() =~= vaults.drop_last().update(i, v));
    }
}

/// Every vault of `vaults` is well formed.
pub open spec fn all_wf<A>(vaults: Seq<Vault<A>>) -> bool {
    forall|j: int| 0 <= j < vaults.len() ==> (#[trigger] vaults[j]).wf()
}

/// The contract's holdings of the configured token cover the vaults: when
/// the contract holds `held` tokens and a call for an owner whose vault is
/// `vaults[i]` moves exactly the tokens it asks for (`op_flow`; the pool's
/// payout is in the target asset, not counted here), the surplus of the
/// holdings over the sum of all balances is unchanged, and every vault stays
/// well formed.
pub proof fn holdings_surplus_kept_by_existing_vault<A>(
    stored_token: Option<A>,
    vaults: Seq<Vault<A>>,
    i: int,
    owner: A,
    op: VaultOp<A>,
    held: int,
)
    requires
        0 <= i < vaults.len(),
        all_wf(vaults),
        op_fits(stored_token, Some(vaults[i]), owner, op),
    ensures
        ({
            let after = apply_op(stored_token, Some(vaults[i]), owner, op)->Some_0;
            let now = vaults.update(i, after);
            &&& all_wf(now)
            &&& (held + op_flow(stored_token, Some(vaults[i]), owner, op)) - sum_balances(now)
                == held - sum_balances(vaults)
        }),
{
    op_keeps_wf_and_accounts(stored_token, Some(vaults[i]), owner, op);
    let after = apply_op(stored_token, Some(vaults[i]), owner, op)->Some_0;
    sum_balances_update(vaults, i, after);
}

/// The same for an owner with no vault yet: a call that stores a new vault
/// adds it to the vaults, and one that stores nothing moves nothing.
pub proof fn holdings_surplus_kept_by_new_vault<A>(
    stored_token: Option<A>,
    vaults: Seq<Vault<A>>,
    owner: A,
    op: VaultOp<A>,
    held: int,
)
    requires
        all_wf(vaults),
        op_fits(stored_token, None, owner, op),
    ensures
        ({
            let now = match apply_op(stored_token, None, owner, op) {
                Some(w) => vaults.push(w),
                None => vaults,
            };
            &&& all_wf(now)
            &&& (held + op_flow(stored_token, None, owner, op)) - sum_balances(now) == held
                - sum_balances(vaults)
        }),
{
    op_keeps_wf_and_accounts(stored_token, None, owner, op);
    if let Some(w) = apply_op(stored_token, None, owner, op) {
        assert(vaults.push(w).drop_last() =~= vaults);
        assert forall|j: int| 0 <= j < vaults.push(w).len() implies (#[trigger] vaults.push(
            w,
        )[j]).wf() by {
            if j < vaults.len() {
                assert(vaults.push(w)[j] == vaults[j]);
            }
        }
    }
}


/// A scheduled swap goes ahead exactly when the vault exists, is not paused,
/// has a schedule that is due, holds at least the scheduled amount, and a
/// token is configured.
pub proof fn swap_goes_ahead_exactly_when_due_and_funded<A>(
    stored_token: Option<A>,
    stored: Option<Vault<A>>,
    current_ledger: u32,
)
    ensures
        execute_swap_result(stored_token, stored, current_ledger) is Ok <==> (stored is Some
            && !stored->Some_0.paused && stored->Some_0.schedule is Some && current_ledger
            >= stored->Some_0.schedule->Some_0.next_execution_ledger && stored->Some_0.balance
            >= stored->Some_0.schedule->Some_0.amount_per_execution && stored_token is Some),
{
}

/// An executed swap changes only the schedule's two ledgers: its frequency,
/// amount, target asset, pool and slippage floor stay as they were, the last
/// execution becomes the current ledger and the next one a period later;
/// the owner and the paused flag are kept, and the order spends the
/// scheduled amount of the configured token.
pub proof fn swap_keeps_schedule_settings<A>(
    stored_token: Option<A>,
    stored: Option<Vault<A>>,
    current_ledger: u32,
)
    requires
        execute_swap_fits(stored_token, stored, current_ledger),
    ensures
        execute_swap_result(stored_token, stored, current_ledger) matches Ok(r) ==> {
            let v = stored->Some_0;
            let s = v.schedule->Some_0;
            let ns = r.0.schedule->Some_0;
            &&& r.0.schedule is Some
            &&& ns.frequency == s.frequency
            &&& ns.amount_per_execution == s.amount_per_execution
            &&& ns.target_asset == s.target_asset
            &&& ns.pool_address == s.pool_address
            &&& ns.min_amount_out_bps == s.min_amount_out_bps
            &&& ns.last_execution_ledger == current_ledger
            &&& ns.next_execution_ledger == current_ledger + ledgers_between(s.frequency)
            &&& r.0.owner == v.owner
            &&& r.0.paused == v.paused
            &&& r.1.amount_in == s.amount_per_execution
            &&& Some(r.2) == stored_token
        },
{
}

/// Two successive executions of one schedule send the pool the same order.
pub proof fn repeated_swaps_send_the_same_order<A>(
    stored_token: Option<A>,
    stored: Option<Vault<A>>,
    first: u32,
    second: u32,
)
    requires
        execute_swap_result(stored_token, stored, first) is Ok,
        execute_swap_result(
            stored_token,
            Some(execute_swap_result(stored_token, stored, first)->Ok_0.0),
            second,
        ) is Ok,
    ensures
        execute_swap_result(
            stored_token,
            Some(execute_swap_result(stored_token, stored, first)->Ok_0.0),
            second,
        )->Ok_0.1 == execute_swap_result(stored_token, stored, first)->Ok_0.1,
{
}

/// Creating a schedule succeeds exactly for a positive amount and a floor of
/// at most 100%, and then stores a schedule made of the call's arguments,
/// whatever schedule the vault held before.
pub proof fn create_schedule_stores_the_arguments<A>(
    stored: Option<Vault<A>>,
    owner: A,
    frequency: Frequency,
    amount_per_execution: i128,
    target_asset: A,
    pool_address: A,
    min_amount_out_bps: u32,
    current_ledger: u32,
)
    requires
        amount_per_execution > 0 && min_amount_out_bps <= 10_000 ==> current_ledger
            + ledgers_between(frequency) <= u32::MAX,
    ensures
        ({
            let r = create_schedule_result(
                stored,
                owner,
                frequency,
                amount_per_execution,
                target_asset,
                pool_address,
                min_amount_out_bps,
                current_ledger,
            );
            &&& r is Ok <==> amount_per_execution > 0 && min_amount_out_bps <= 10_000
            &&& r matches Ok(v) ==> {
                let sch = v.schedule->Some_0;
                &&& v.schedule is Some
                &&& sch.frequency == frequency
                &&& sch.amount_per_execution == amount_per_execution
                &&& sch.target_asset == target_asset
                &&& sch.pool_address == pool_address
                &&& sch.min_amount_out_bps == min_amount_out_bps
                &&& sch.last_execution_ledger == current_ledger
                &&& sch.next_execution_ledger == current_ledger + ledgers_between(frequency)
            }
        }),
{
}

/// Resuming any stored vault leaves it unpaused with every other field as
/// it was; pausing leaves it paused with every other field as it was.
pub proof fn resume_and_pause_set_only_the_flag<A>(v: Vault<A>)
    ensures
        set_paused_result(Some(v), false) matches Ok(r) && !r.paused && r.owner == v.owner
            && r.balance == v.balance && r.schedule == v.schedule,
        set_paused_result(Some(v), true) matches Ok(r) && r.paused && r.owner == v.owner
            && r.balance == v.balance && r.schedule == v.schedule,
        !v.paused ==> set_paused_result(Some(v), false) == Ok::<Vault<A>, VaultError>(v),
{
}

/// The demo pool pays out exactly the input whenever the input meets the
/// floor and the pool holds enough; it refuses for slippage exactly when
/// the input is below the floor, and for liquidity exactly when the floor is
/// met but the pool holds less than the input.
pub proof fn pool_swap_pays_one_to_one(amount_in: i128, min_amount_out: i128, pool_balance: i128)
    ensures
        min_amount_out <= amount_in <= pool_balance ==> pool_swap_result(
            amount_in,
            min_amount_out,
            pool_balance,
        ) == Ok::<i128, PoolError>(amount_in),
        pool_swap_result(amount_in, min_amount_out, pool_balance) == Err::<i128, PoolError>(
            PoolError::SlippageExceeded,
        ) <==> amount_in < min_amount_out,
        pool_swap_result(amount_in, min_amount_out, pool_balance) == Err::<i128, PoolError>(
            PoolError::InsufficientLiquidity,
        ) <==> min_amount_out <= amount_in && pool_balance < amount_in,
{
}

/// The slippage floor is the input scaled by the basis points, rounded down:
/// for a non-negative input whose product with the basis points fits in
/// `i128`, the floor times ten thousand is at most that product and within
/// ten thousand of it.
pub proof fn min_amount_out_is_scaled_input(amount_in: int, bps: int)
    requires
        0 <= amount_in,
        0 <= bps,
        amount_in * bps <= i128::MAX,
    ensures
        min_amount_out_for(amount_in, bps) * 10_000 <= amount_in * bps < (min_amount_out_for(
            amount_in,
            bps,
        ) + 1) * 10_000,
{
    assert(amount_in * bps >= 0) by (nonlinear_arith)
        requires
            0 <= amount_in,
            0 <= bps,
    ;
}

} // verus!
