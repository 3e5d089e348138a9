use std::collections::HashMap;

use dca_vault::{
    min_amount_out, DcaVaultContract, DemoPool, Frequency, PoolError, SwapOrder, Vault,
    VaultError, LEDGERS_PER_DAY,
};

type Addr = &'static str;

const VAULT_CONTRACT: Addr = "vault-contract";
const XLM: Addr = "xlm";

/// A small in-memory ledger: the vault contract's storage, the token
/// balances, and the ledger sequence, driven through the library's decisions
/// the way the contract drives them.
struct Ledger {
    token: Option<Addr>,
    vaults: HashMap<Addr, Vault<Addr>>,
    balances: HashMap<(Addr, Addr), i128>,
    sequence: u32,
}

fn abort<T, E: std::fmt::Debug>(r: Result<T, E>, msg: fn(&E) -> &'static str) -> T {
    match r {
        Ok(t) => t,
        Err(e) => panic!("{}", msg(&e)),
    }
}

fn vault_abort<T>(r: Result<T, VaultError>) -> T {
    abort(r, |e| e.message())
}

fn pool_abort<T>(r: Result<T, PoolError>) -> T {
    abort(r, |e| e.message())
}

impl Ledger {
    fn setup() -> Ledger {
        let mut l = Ledger {
            token: None,
            vaults: HashMap::new(),
            balances: HashMap::new(),
            sequence: 0,
        };
        l.token = Some(vault_abort(DcaVaultContract::initialize(l.token, XLM)));
        l
    }

    fn balance(&self, token: Addr, holder: Addr) -> i128 {
        *self.balances.get(&(token, holder)).unwrap_or(&0)
    }

    fn fund(&mut self, token: Addr, to: Addr, amount: i128) {
        let b = self.balance(token, to);
        self.balances.insert((token, to), b + amount);
    }

    fn transfer(&mut self, token: Addr, from: Addr, to: Addr, amount: i128) {
        let b = self.balance(token, from);
        if b < amount {
            panic!("balance is not sufficient to spend");
        }
        self.balances.insert((token, from), b - amount);
        self.fund(token, to, amount);
    }

    fn deposit(&mut self, owner: Addr, amount: i128) {
        let (vault, token) = vault_abort(DcaVaultContract::deposit(
            self.token,
            self.vaults.get(owner).cloned(),
            owner,
            amount,
        ));
        self.transfer(token, owner, VAULT_CONTRACT, amount);
        self.vaults.insert(owner, vault);
    }

    fn withdraw(&mut self, owner: Addr, amount: i128) {
        let (vault, token) = vault_abort(DcaVaultContract::withdraw(
            self.token,
            self.vaults.get(owner).cloned(),
            amount,
        ));
        self.vaults.insert(owner, vault);
        self.transfer(token, VAULT_CONTRACT, owner, amount);
    }

    fn create_schedule(
        &mut self,
        owner: Addr,
        frequency: Frequency,
        amount_per_execution: i128,
        target_asset: Addr,
        pool_address: Addr,
        min_amount_out_bps: u32,
    ) {
        let vault = vault_abort(DcaVaultContract::create_schedule(
            self.vaults.get(owner).cloned(),
            owner,
            frequency,
            amount_per_execution,
            target_asset,
            pool_address,
            min_amount_out_bps,
            self.sequence,
        ));
        self.vaults.insert(owner, vault);
    }

    fn pause_schedule(&mut self, owner: Addr) {
        let vault = vault_abort(DcaVaultContract::pause_schedule(self.vaults.get(owner).cloned()));
        self.vaults.insert(owner, vault);
    }

    fn resume_schedule(&mut self, owner: Addr) {
        let vault = vault_abort(DcaVaultContract::resume_schedule(self.vaults.get(owner).cloned()));
        self.vaults.insert(owner, vault);
    }

    fn get_vault(&self, owner: Addr) -> Vault<Addr> {
        vault_abort(DcaVaultContract::get_vault(self.vaults.get(owner).cloned()))
    }

    /// A pool paying out at one to one from its own liquidity.
    fn pool_swap(&mut self, pool: Addr, to: Addr, token_out: Addr, order: SwapOrder) -> i128 {
        let held = self.balance(token_out, pool);
        let out = pool_abort(DemoPool::swap(order.amount_in, order.min_amount_out, held));
        self.transfer(token_out, pool, to, out);
        out
    }

    fn execute_swap(&mut self, owner: Addr) -> i128 {
        let (vault, order, token_in) = vault_abort(DcaVaultContract::execute_swap(
            self.token,
            self.vaults.get(owner).cloned(),
            self.sequence,
        ));
        let schedule = vault.schedule.clone().unwrap();
        self.transfer(token_in, VAULT_CONTRACT, schedule.pool_address, order.amount_in);
        let out = self.pool_swap(schedule.pool_address, VAULT_CONTRACT, schedule.target_asset, order);
        self.vaults.insert(owner, vault);
        out
    }
}

const TARGET: Addr = "target-asset";
const POOL: Addr = "pool";

fn setup_swap() -> Ledger {
    let mut l = Ledger::setup();
    l.fund(TARGET, POOL, 1_000_000);
    l
}

#[test]
fn deposit_increases_balance() {
    let mut l = Ledger::setup();
    let owner = "owner";
    l.fund(XLM, owner, 1_000);

    l.deposit(owner, 400);

    let vault = l.get_vault(owner);
    assert_eq!(vault.balance, 400);
}

#[test]
fn get_vault_with_no_schedule_returns_none() {
    let mut l = Ledger::setup();
    let owner = "owner";
    l.fund(XLM, owner, 1_000);

    l.deposit(owner, 400);

    let vault = l.get_vault(owner);
    assert_eq!(vault.owner, owner);
    assert_eq!(vault.balance, 400);
    assert_eq!(vault.schedule, None);
}

#[test]
fn withdraw_decreases_balance() {
    let mut l = Ledger::setup();
    let owner = "owner";
    l.fund(XLM, owner, 1_000);

    l.deposit(owner, 500);
    l.withdraw(owner, 200);

    let vault = l.get_vault(owner);
    assert_eq!(vault.balance, 300);
}

#[test]
#[should_panic(expected = "withdrawal amount exceeds balance")]
fn withdraw_more_than_balance_panics() {
    let mut l = Ledger::setup();
    let owner = "owner";
    l.fund(XLM, owner, 1_000);

    l.deposit(owner, 100);
    l.withdraw(owner, 200);
}

#[test]
fn create_schedule_attaches_schedule() {
    let mut l = Ledger::setup();
    let owner = "owner";
    let target_asset = "target";
    let pool_address = "pool";

    l.create_schedule(owner, Frequency::Weekly, 50, target_asset, pool_address, 9_500);

    let vault = l.get_vault(owner);
    let schedule = vault.schedule.expect("schedule should be set");
    assert_eq!(schedule.frequency, Frequency::Weekly);
    assert_eq!(schedule.amount_per_execution, 50);
    assert_eq!(schedule.target_asset, target_asset);
    assert_eq!(schedule.pool_address, pool_address);
    assert_eq!(schedule.min_amount_out_bps, 9_500);
}

#[test]
fn pause_and_resume_schedule_toggle_paused() {
    let mut l = Ledger::setup();
    let owner = "owner";
    l.create_schedule(owner, Frequency::Daily, 10, "target", "pool", 9_500);

    l.pause_schedule(owner);
    assert!(l.get_vault(owner).paused);

    l.resume_schedule(owner);
    assert!(!l.get_vault(owner).paused);
}

#[test]
#[should_panic(expected = "vault does not exist")]
fn get_vault_on_nonexistent_owner_panics() {
    let l = Ledger::setup();
    l.get_vault("owner");
}

#[test]
fn execute_swap_succeeds_when_due() {
    let mut l = setup_swap();
    let owner = "owner";
    l.fund(XLM, owner, 1_000);
    l.deposit(owner, 500);
    l.create_schedule(owner, Frequency::Daily, 100, TARGET, POOL, 9_000);

    let due_ledger = l.get_vault(owner).schedule.unwrap().next_execution_ledger;
    l.sequence = due_ledger;

    let amount_out = l.execute_swap(owner);
    assert_eq!(amount_out, 100);

    let vault = l.get_vault(owner);
    assert_eq!(vault.balance, 400);
    let schedule = vault.schedule.unwrap();
    assert_eq!(schedule.last_execution_ledger, due_ledger);
    assert_eq!(schedule.next_execution_ledger, due_ledger + LEDGERS_PER_DAY);

    assert_eq!(l.balance(XLM, POOL), 100);
    assert_eq!(l.balance(TARGET, VAULT_CONTRACT), 100);
}

#[test]
#[should_panic(expected = "schedule is not yet due")]
fn execute_swap_panics_when_not_due() {
    let mut l = setup_swap();
    let owner = "owner";
    l.fund(XLM, owner, 1_000);
    l.deposit(owner, 500);
    l.create_schedule(owner, Frequency::Daily, 100, TARGET, POOL, 9_000);

    l.execute_swap(owner);
}

#[test]
#[should_panic(expected = "schedule is paused")]
fn execute_swap_panics_when_paused() {
    let mut l = setup_swap();
    let owner = "owner";
    l.fund(XLM, owner, 1_000);
    l.deposit(owner, 500);
    l.create_schedule(owner, Frequency::Daily, 100, TARGET, POOL, 9_000);

    let due_ledger = l.get_vault(owner).schedule.unwrap().next_execution_ledger;
    l.sequence = due_ledger;
    l.pause_schedule(owner);

    l.execute_swap(owner);
}

#[test]
#[should_panic(expected = "insufficient balance for scheduled swap")]
fn execute_swap_panics_when_balance_insufficient() {
    let mut l = setup_swap();
    let owner = "owner";
    l.fund(XLM, owner, 1_000);
    l.deposit(owner, 50);
    l.create_schedule(owner, Frequency::Daily, 100, TARGET, POOL, 9_000);

    let due_ledger = l.get_vault(owner).schedule.unwrap().next_execution_ledger;
    l.sequence = due_ledger;

    l.execute_swap(owner);
}

#[test]
fn execute_swap_is_callable_by_non_owner() {
    let mut l = setup_swap();
    let owner = "owner";
    let keeper = "keeper";
    assert_ne!(owner, keeper);

    l.fund(XLM, owner, 1_000);
    l.deposit(owner, 500);
    l.create_schedule(owner, Frequency::Daily, 100, TARGET, POOL, 9_000);

    let due_ledger = l.get_vault(owner).schedule.unwrap().next_execution_ledger;
    l.sequence = due_ledger;

    // The decision takes no caller: whoever triggers it gets the same outcome.
    let amount_out = l.execute_swap(owner);
    assert_eq!(amount_out, 100);
    assert_eq!(l.get_vault(owner).balance, 400);
}

// ---------------------------------------------------------------------------
// Further cases of the library's own.
// ---------------------------------------------------------------------------

fn vault(balance: i128) -> Vault<Addr> {
    Vault { owner: "owner", balance, schedule: None, paused: false }
}

#[test]
fn ledgers_for_each_frequency() {
    assert_eq!(DcaVaultContract::ledgers_for(Frequency::Daily), 17_280);
    assert_eq!(DcaVaultContract::ledgers_for(Frequency::Weekly), 120_960);
    assert_eq!(DcaVaultContract::ledgers_for(Frequency::Monthly), 518_400);
}

#[test]
fn initialize_twice_is_refused() {
    assert_eq!(DcaVaultContract::initialize(None, XLM), Ok(XLM));
    assert_eq!(
        DcaVaultContract::initialize(Some(XLM), "other"),
        Err(VaultError::AlreadyInitialized)
    );
    assert_eq!(VaultError::AlreadyInitialized.message(), "already initialized");
}

#[test]
fn token_address_before_initialize_is_refused() {
    assert_eq!(DcaVaultContract::token_address::<Addr>(None), Err(VaultError::NotInitialized));
    assert_eq!(DcaVaultContract::token_address(Some(XLM)), Ok(XLM));
    assert_eq!(VaultError::NotInitialized.message(), "contract not initialized");
}

#[test]
fn deposit_of_non_positive_amount_is_refused() {
    assert_eq!(DcaVaultContract::deposit(Some(XLM), None, "owner", 0), Err(VaultError::AmountNotPositive));
    assert_eq!(
        DcaVaultContract::deposit(Some(XLM), Some(vault(5)), "owner", -3),
        Err(VaultError::AmountNotPositive)
    );
    assert_eq!(VaultError::AmountNotPositive.message(), "amount must be positive");
}

#[test]
fn deposit_adds_to_existing_vault_and_keeps_its_fields() {
    let mut v = vault(70);
    v.paused = true;
    let (r, token) = DcaVaultContract::deposit(Some(XLM), Some(v.clone()), "someone-else", 30).unwrap();
    assert_eq!(token, XLM);
    assert_eq!(r.balance, 100);
    assert_eq!(r.owner, "owner");
    assert!(r.paused);
}

#[test]
fn withdraw_errors() {
    assert_eq!(DcaVaultContract::withdraw::<Addr>(Some(XLM), None, 10), Err(VaultError::VaultDoesNotExist));
    assert_eq!(DcaVaultContract::withdraw(Some(XLM), Some(vault(10)), 0), Err(VaultError::AmountNotPositive));
    assert_eq!(
        DcaVaultContract::withdraw(Some(XLM), Some(vault(10)), 11),
        Err(VaultError::WithdrawalExceedsBalance)
    );
    assert_eq!(DcaVaultContract::withdraw(Some(XLM), Some(vault(10)), 10).unwrap().0.balance, 0);
}

#[test]
fn withdraw_undoes_deposit() {
    let v = vault(42);
    let (d, token_in) = DcaVaultContract::deposit(Some(XLM), Some(v.clone()), "owner", 8).unwrap();
    assert_eq!(d.balance, 50);
    assert_eq!(DcaVaultContract::withdraw(Some(XLM), Some(d), 8), Ok((v, token_in)));
}

#[test]
fn create_schedule_errors() {
    assert_eq!(
        DcaVaultContract::create_schedule(None, "o", Frequency::Daily, 0, "t", "p", 100, 0),
        Err(VaultError::AmountPerExecutionNotPositive)
    );
    assert_eq!(
        DcaVaultContract::create_schedule(None, "o", Frequency::Daily, 1, "t", "p", 10_001, 0),
        Err(VaultError::MinAmountOutBpsTooLarge)
    );
    assert_eq!(
        VaultError::MinAmountOutBpsTooLarge.message(),
        "min_amount_out_bps must be <= 10000"
    );
    assert_eq!(
        VaultError::AmountPerExecutionNotPositive.message(),
        "amount_per_execution must be positive"
    );
}

#[test]
fn create_schedule_sets_ledgers_and_keeps_funds() {
    let mut v = vault(250);
    v.paused = true;
    let r = DcaVaultContract::create_schedule(Some(v), "o", Frequency::Monthly, 5, "t", "p", 10_000, 1_000)
        .unwrap();
    assert_eq!(r.balance, 250);
    assert!(r.paused);
    let s = r.schedule.unwrap();
    assert_eq!(s.last_execution_ledger, 1_000);
    assert_eq!(s.next_execution_ledger, 1_000 + 518_400);
}

#[test]
fn pause_and_resume_missing_vault_is_refused() {
    assert_eq!(DcaVaultContract::pause_schedule::<Addr>(None), Err(VaultError::VaultDoesNotExist));
    assert_eq!(DcaVaultContract::resume_schedule::<Addr>(None), Err(VaultError::VaultDoesNotExist));
    assert_eq!(VaultError::VaultDoesNotExist.message(), "vault does not exist");
}

#[test]
fn resume_undoes_pause() {
    let v = DcaVaultContract::create_schedule(Some(vault(3)), "o", Frequency::Weekly, 1, "t", "p", 5, 9)
        .unwrap();
    let p = DcaVaultContract::pause_schedule(Some(v.clone())).unwrap();
    assert!(p.paused);
    assert_eq!(p.balance, 3);
    assert_eq!(p.schedule, v.schedule);
    assert_eq!(DcaVaultContract::pause_schedule(Some(p.clone())), Ok(p.clone()));
    assert_eq!(DcaVaultContract::resume_schedule(Some(p)), Ok(v));
}

#[test]
fn execute_swap_without_schedule_is_refused() {
    assert_eq!(
        DcaVaultContract::execute_swap(Some(XLM), Some(vault(100)), 5),
        Err(VaultError::NoScheduleConfigured)
    );
    assert_eq!(
        DcaVaultContract::execute_swap::<Addr>(Some(XLM), None, 5),
        Err(VaultError::VaultDoesNotExist)
    );
    assert_eq!(VaultError::NoScheduleConfigured.message(), "no schedule configured");
}

#[test]
fn no_second_swap_in_the_same_ledger() {
    let v = DcaVaultContract::create_schedule(Some(vault(1_000)), "o", Frequency::Weekly, 100, "t", "p", 9_000, 10)
        .unwrap();
    let due = 10 + 120_960;
    let (after, order, token_in) = DcaVaultContract::execute_swap(Some(XLM), Some(v), due).unwrap();
    assert_eq!(token_in, XLM);
    assert_eq!(order, SwapOrder { amount_in: 100, min_amount_out: 90 });
    assert_eq!(after.balance, 900);
    assert_eq!(
        DcaVaultContract::execute_swap(Some(XLM), Some(after.clone()), due),
        Err(VaultError::ScheduleNotYetDue)
    );
    assert_eq!(
        DcaVaultContract::execute_swap(Some(XLM), Some(after.clone()), due + 120_959),
        Err(VaultError::ScheduleNotYetDue)
    );
    let (again, _, _) = DcaVaultContract::execute_swap(Some(XLM), Some(after), due + 120_960).unwrap();
    assert_eq!(again.balance, 800);
}

#[test]
fn paused_vault_never_swaps() {
    let mut v = DcaVaultContract::create_schedule(Some(vault(1_000)), "o", Frequency::Daily, 100, "t", "p", 0, 0)
        .unwrap();
    v.paused = true;
    assert_eq!(DcaVaultContract::execute_swap(Some(XLM), Some(v), u32::MAX - 17_280), Err(VaultError::SchedulePaused));
    assert_eq!(VaultError::SchedulePaused.message(), "schedule is paused");
}

#[test]
fn slippage_floor_values() {
    assert_eq!(min_amount_out(100, 9_000), 90);
    assert_eq!(min_amount_out(100, 9_500), 95);
    assert_eq!(min_amount_out(100, 10_000), 100);
    assert_eq!(min_amount_out(100, 0), 0);
    assert_eq!(min_amount_out(9_999, 1), 0);
    assert_eq!(min_amount_out(12_345, 3_333), 4_114);
    // The product saturates before the division.
    assert_eq!(min_amount_out(i128::MAX, 10_000), i128::MAX / 10_000);
    assert_eq!(min_amount_out(i128::MIN, 2), i128::MIN / 10_000);
    // Negative inputs round toward zero.
    assert_eq!(min_amount_out(-15_001, 1), -1);
    assert_eq!(min_amount_out(-5, 10_000), -5);
}

#[test]
fn error_messages() {
    assert_eq!(VaultError::WithdrawalExceedsBalance.message(), "withdrawal amount exceeds balance");
    assert_eq!(VaultError::ScheduleNotYetDue.message(), "schedule is not yet due");
    assert_eq!(
        VaultError::InsufficientBalanceForSwap.message(),
        "insufficient balance for scheduled swap"
    );
}

#[test]
fn balance_is_net_of_all_flows() {
    // deposits 300 + 200, a refused withdrawal, a withdrawal of 150,
    // and two executions of 100 each: 300 + 200 - 150 - 100 - 100 = 150.
    let owner = "o";
    let (v, _) = DcaVaultContract::deposit(Some(XLM), None, owner, 300).unwrap();
    let (v, _) = DcaVaultContract::deposit(Some(XLM), Some(v), owner, 200).unwrap();
    assert_eq!(
        DcaVaultContract::withdraw(Some(XLM), Some(v.clone()), 501),
        Err(VaultError::WithdrawalExceedsBalance)
    );
    let (v, _) = DcaVaultContract::withdraw(Some(XLM), Some(v), 150).unwrap();
    let v = DcaVaultContract::create_schedule(Some(v), owner, Frequency::Daily, 100, "t", "p", 9_000, 0)
        .unwrap();
    let (v, _, _) = DcaVaultContract::execute_swap(Some(XLM), Some(v), 17_280).unwrap();
    let (v, _, _) = DcaVaultContract::execute_swap(Some(XLM), Some(v), 34_560).unwrap();
    assert_eq!(v.balance, 150);
    let (v, _, _) = DcaVaultContract::execute_swap(Some(XLM), Some(v), 51_840).unwrap();
    assert_eq!(v.balance, 50);
    // The balance never goes below zero: the next execution is refused.
    assert_eq!(
        DcaVaultContract::execute_swap(Some(XLM), Some(v), 69_120),
        Err(VaultError::InsufficientBalanceForSwap)
    );
}

#[test]
fn overflow_checks_before_the_operations() {
    assert!(DcaVaultContract::deposit_fits(&Some(XLM), &Some(vault(i128::MAX - 5)), 5));
    assert!(!DcaVaultContract::deposit_fits(&Some(XLM), &Some(vault(i128::MAX - 5)), 6));
    assert!(DcaVaultContract::deposit_fits(&Some(XLM), &Some(vault(i128::MAX)), 0));
    assert!(DcaVaultContract::deposit_fits::<Addr>(&Some(XLM), &None, i128::MAX));
    assert!(DcaVaultContract::create_schedule_fits(Frequency::Daily, 1, 0, u32::MAX - 17_280));
    assert!(!DcaVaultContract::create_schedule_fits(Frequency::Daily, 1, 0, u32::MAX - 17_279));
    // A call refused by a rule does not need to fit.
    assert!(DcaVaultContract::create_schedule_fits(Frequency::Daily, 0, 0, u32::MAX));
    let v = DcaVaultContract::create_schedule(Some(vault(100)), "o", Frequency::Daily, 10, "t", "p", 0, 0)
        .unwrap();
    assert!(DcaVaultContract::execute_swap_fits(&Some(XLM), &Some(v.clone()), u32::MAX - 17_280));
    assert!(!DcaVaultContract::execute_swap_fits(&Some(XLM), &Some(v.clone()), u32::MAX));
    let mut paused = v;
    paused.paused = true;
    assert!(DcaVaultContract::execute_swap_fits(&Some(XLM), &Some(paused), u32::MAX));
}

#[test]
fn nothing_moves_before_initialize() {
    // The amount check comes before the token check.
    assert_eq!(
        DcaVaultContract::deposit::<Addr>(None, None, "o", 0),
        Err(VaultError::AmountNotPositive)
    );
    assert_eq!(DcaVaultContract::deposit::<Addr>(None, None, "o", 10), Err(VaultError::NotInitialized));
    // The vault checks come before the token check.
    assert_eq!(DcaVaultContract::withdraw::<Addr>(None, None, 10), Err(VaultError::VaultDoesNotExist));
    assert_eq!(
        DcaVaultContract::withdraw(None, Some(vault(5)), 10),
        Err(VaultError::WithdrawalExceedsBalance)
    );
    assert_eq!(DcaVaultContract::withdraw(None, Some(vault(50)), 10), Err(VaultError::NotInitialized));
    let v = DcaVaultContract::create_schedule(Some(vault(100)), "o", Frequency::Daily, 10, "t", "p", 0, 0)
        .unwrap();
    assert_eq!(
        DcaVaultContract::execute_swap(None, Some(v.clone()), 17_279),
        Err(VaultError::ScheduleNotYetDue)
    );
    assert_eq!(DcaVaultContract::execute_swap(None, Some(v), 17_280), Err(VaultError::NotInitialized));
}

#[test]
fn deposit_before_initialize_is_refused() {
    let r = DcaVaultContract::deposit::<Addr>(None, None, "owner", 400);
    assert_eq!(r.map(|_| ()).map_err(|e| e.message()), Err("contract not initialized"));
}

#[test]
fn schedule_runs_at_most_once_per_period() {
    let v = DcaVaultContract::create_schedule(Some(vault(1_000)), "o", Frequency::Daily, 100, "t", "p", 0, 0)
        .unwrap();
    let (v, _, _) = DcaVaultContract::execute_swap(Some(XLM), Some(v), 20_000).unwrap();
    // Deposits, withdrawals, a pause and a resume in between do not make it due.
    let (v, _) = DcaVaultContract::deposit(Some(XLM), Some(v), "o", 500).unwrap();
    let (v, _) = DcaVaultContract::withdraw(Some(XLM), Some(v), 200).unwrap();
    let p = DcaVaultContract::pause_schedule(Some(v)).unwrap();
    assert_eq!(
        DcaVaultContract::execute_swap(Some(XLM), Some(p.clone()), 30_000),
        Err(VaultError::SchedulePaused)
    );
    let v = DcaVaultContract::resume_schedule(Some(p)).unwrap();
    assert_eq!(
        DcaVaultContract::execute_swap(Some(XLM), Some(v.clone()), 20_000 + 17_279),
        Err(VaultError::ScheduleNotYetDue)
    );
    let (v, _, _) = DcaVaultContract::execute_swap(Some(XLM), Some(v), 20_000 + 17_280).unwrap();
    assert_eq!(v.balance, 1_000 - 100 + 500 - 200 - 100);
}

#[test]
fn holdings_surplus_is_kept() {
    // The contract holds 1_000 tokens; two vaults hold 300 and 500: surplus 200.
    let mut held: i128 = 1_000;
    let mut a = vault(300);
    let mut b = vault(500);
    let (na, t) = DcaVaultContract::deposit(Some(XLM), Some(a), "a", 50).unwrap();
    assert_eq!(t, XLM);
    a = na;
    held += 50;
    let (nb, _) = DcaVaultContract::withdraw(Some(XLM), Some(b), 120).unwrap();
    b = nb;
    held -= 120;
    let s = DcaVaultContract::create_schedule(Some(a), "a", Frequency::Daily, 40, "t", "p", 9_000, 0)
        .unwrap();
    let (na, order, _) = DcaVaultContract::execute_swap(Some(XLM), Some(s), 17_280).unwrap();
    a = na;
    held -= order.amount_in;
    assert_eq!(held - (a.balance + b.balance), 200);
}
