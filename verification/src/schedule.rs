//! Recurring purchase schedules: how often they run and how the slippage
//! floor of one execution is computed.
use vstd::prelude::*;

verus! {

/// Ledger close time is about five seconds, so a day is roughly this many ledgers.
pub const LEDGERS_PER_DAY: u32 = 17280;

/// How often a schedule executes.
#[derive(Clone, Copy, Debug, PartialEq, Eq, Structural)]
pub enum Frequency {
    Daily,
    Weekly,
    Monthly,
}

/// Number of ledgers between two executions of a schedule of frequency `f`.
pub open spec fn ledgers_between(f: Frequency) -> nat {
    match f {
        Frequency::Daily => LEDGERS_PER_DAY as nat,
        Frequency::Weekly => (LEDGERS_PER_DAY * 7) as nat,
        Frequency::Monthly => (LEDGERS_PER_DAY * 30) as nat,
    }
}

/// A user-configured recurring purchase, parameterised by the type that names
/// an account or contract on the ledger.
#[derive(Clone, Debug, PartialEq, Eq)]
pub struct Schedule<A> {
    pub frequency: Frequency,
    pub amount_per_execution: i128,
    pub target_asset: A,
    pub last_execution_ledger: u32,
    pub next_execution_ledger: u32,
    pub pool_address: A,
    pub min_amount_out_bps: u32,
}

impl<A> Schedule<A> {
    /// What every schedule written by the vault satisfies: a positive amount,
    /// a slippage floor of at most 100%, and a next execution exactly one
    /// period after the last one.
    pub open spec fn wf(self) -> bool {
        &&& self.amount_per_execution > 0
        &&& self.min_amount_out_bps <= 10_000
        &&& self.next_execution_ledger == self.last_execution_ledger + ledgers_between(self.frequency)
    }
}

/// `x` clamped into the range of `i128`.
pub open spec fn saturate_i128(x: int) -> int {
    if x > i128::MAX {
        i128::MAX as int
    } else if x < i128::MIN {
        i128::MIN as int
    } else {
        x
    }
}

/// Division of `x` by a positive `d`, rounding toward zero.
pub open spec fn div_toward_zero(x: int, d: int) -> int {
    if x >= 0 {
        x / d
    } else {
        -((-x) / d)
    }
}

/// The least output accepted for an input of `amount_in` under a slippage floor
/// of `bps` basis points, assuming a one-to-one expected rate: the product
/// saturated to `i128`, then divided by ten thousand rounding toward zero.
pub open spec fn min_amount_out_for(amount_in: int, bps: int) -> int {
    div_toward_zero(saturate_i128(amount_in * bps), 10_000)
}

/// The least output accepted when swapping `amount_in` with a slippage floor
/// of `min_amount_out_bps` basis points of a one-to-one expected rate.
pub fn min_amount_out(amount_in: i128, min_amount_out_bps: u32) -> (r: i128)
    ensures
        r == min_amount_out_for(amount_in as int, min_amount_out_bps as int),
        0 <= amount_in && min_amount_out_bps <= 10_000 ==> 0 <= r <= amount_in,
        0 <= amount_in * min_amount_out_bps <= i128::MAX ==> r * 10_000 <= amount_in
            * min_amount_out_bps < (r + 1) * 10_000,
        i128::MIN <= amount_in * min_amount_out_bps < 0 ==> (r - 1) * 10_000 < amount_in
            * min_amount_out_bps <= r * 10_000,
        amount_in * min_amount_out_bps > i128::MAX ==> r * 10_000 <= i128::MAX < (r + 1) * 10_000,
        amount_in * min_amount_out_bps < i128::MIN ==> (r - 1) * 10_000 < i128::MIN <= r * 10_000,
{
    let bps: i128 = min_amount_out_bps as i128;
    let product: i128 = match amount_in.checked_mul(bps) {
        Some(p) => p,
        None => {
            if amount_in < 0 {
                i128::MIN
            } else {
                i128::MAX
            }
        },
    };
    proof {
        if amount_in < 0 {
            assert(amount_in * bps <= 0) by (nonlinear_arith)
                requires amount_in < 0, bps >= 0;
        } else {
            assert(amount_in * bps >= 0) by (nonlinear_arith)
                requires amount_in >= 0, bps >= 0;
        }
        assert(product == saturate_i128(amount_in * bps));
        if 0 <= amount_in && min_amount_out_bps <= 10_000 {
            assert(amount_in * bps <= amount_in * 10_000) by (nonlinear_arith)
                requires amount_in >= 0, bps <= 10_000;
        }
    }
    match product.checked_div(10_000) {
        Some(q) => q,
        None => 0,
    }
}

} // verus!
