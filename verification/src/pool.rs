//! The demo pool's decisions: a pool with two tokens that pays out the token
//! asked for at a fixed one-to-one rate, from its own liquidity.
use vstd::prelude::*;

verus! {

/// Why the demo pool refuses a call.
#[derive(Clone, Copy, Debug, PartialEq, Eq, Structural)]
pub enum PoolError {
    AlreadyInitialized,
    AmountNotPositive,
    SlippageExceeded,
    InsufficientLiquidity,
}

impl PoolError {
    pub open spec fn spec_message(self) -> Seq<char> {
        match self {
            PoolError::AlreadyInitialized => "already initialized"@,
            PoolError::AmountNotPositive => "amount must be positive"@,
            PoolError::SlippageExceeded => "slippage: amount_out below min_amount_out"@,
            PoolError::InsufficientLiquidity => "insufficient pool liquidity"@,
        }
    }

    /// The message with which the pool aborts on this error.
    pub fn message(&self) -> (m: &'static str)
        ensures
            m@ == self.spec_message(),
    {
        match self {
            PoolError::AlreadyInitialized => "already initialized",
            PoolError::AmountNotPositive => "amount must be positive",
            PoolError::SlippageExceeded => "slippage: amount_out below min_amount_out",
            PoolError::InsufficientLiquidity => "insufficient pool liquidity",
        }
    }
}

/// What the pool records at setup: its admin and its two tokens.
#[derive(Clone, Debug, PartialEq, Eq)]
pub struct PoolConfig<A> {
    pub admin: A,
    pub token_a: A,
    pub token_b: A,
}

pub open spec fn pool_initialize_result<A>(
    stored_admin: Option<A>,
    admin: A,
    token_a: A,
    token_b: A,
) -> Result<PoolConfig<A>, PoolError> {
    if stored_admin is Some {
        Err(PoolError::AlreadyInitialized)
    } else {
        Ok(PoolConfig { admin, token_a, token_b })
    }
}

pub open spec fn deposit_liquidity_result(amount: i128) -> Result<i128, PoolError> {
    if amount <= 0 {
        Err(PoolError::AmountNotPositive)
    } else {
        Ok(amount)
    }
}

/// The swap's outcome: the output equals the input, refused when it falls
/// below `min_amount_out`, then refused when the pool holds less of the
/// output token than it would pay.
pub open spec fn pool_swap_result(amount_in: i128, min_amount_out: i128, pool_balance: i128) -> Result<
    i128,
    PoolError,
> {
    if amount_in < min_amount_out {
        Err(PoolError::SlippageExceeded)
    } else if pool_balance < amount_in {
        Err(PoolError::InsufficientLiquidity)
    } else {
        Ok(amount_in)
    }
}

/// The demo pool contract.
pub struct DemoPool;

impl DemoPool {
    /// One-time setup, given the admin that the storage already holds, if any.
    pub fn initialize<A>(stored_admin: Option<A>, admin: A, token_a: A, token_b: A) -> (r: Result<
        PoolConfig<A>,
        PoolError,
    >)
        ensures
            r == pool_initialize_result(stored_admin, admin, token_a, token_b),
            stored_admin is Some ==> r == Err::<PoolConfig<A>, PoolError>(
                PoolError::AlreadyInitialized,
            ),
            stored_admin is None ==> r == Ok::<PoolConfig<A>, PoolError>(
                PoolConfig { admin, token_a, token_b },
            ),
    {
        match stored_admin {
            Some(_) => Err(PoolError::AlreadyInitialized),
            None => Ok(PoolConfig { admin, token_a, token_b }),
        }
    }

    /// The amount of liquidity to pull from the funder into the pool.
    pub fn deposit_liquidity(amount: i128) -> (r: Result<i128, PoolError>)
        ensures
            r == deposit_liquidity_result(amount),
            amount > 0 ==> r == Ok::<i128, PoolError>(amount),
            amount <= 0 ==> r == Err::<i128, PoolError>(PoolError::AmountNotPositive),
    {
        if amount <= 0 {
            return Err(PoolError::AmountNotPositive);
        }
        Ok(amount)
    }

    /// The amount to pay out for `amount_in`, given the pool's balance of the
    /// output token. The caller has already pushed `amount_in` to the pool.
    pub fn swap(amount_in: i128, min_amount_out: i128, pool_balance: i128) -> (r: Result<
        i128,
        PoolError,
    >)
        ensures
            r == pool_swap_result(amount_in, min_amount_out, pool_balance),
            r matches Ok(out) ==> out == amount_in && min_amount_out <= out <= pool_balance,
            min_amount_out <= amount_in <= pool_balance ==> r == Ok::<i128, PoolError>(amount_in),
            amount_in < min_amount_out ==> r == Err::<i128, PoolError>(PoolError::SlippageExceeded),
            min_amount_out <= amount_in && pool_balance < amount_in ==> r == Err::<i128, PoolError>(
                PoolError::InsufficientLiquidity,
            ),
    {
        let amount_out = amount_in;
        if amount_out < min_amount_out {
            return Err(PoolError::SlippageExceeded);
        }
        if pool_balance < amount_out {
            return Err(PoolError::InsufficientLiquidity);
        }
        Ok(amount_out)
    }
}

} // verus!
