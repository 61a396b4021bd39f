use vstd::prelude::*;
use crate::state::ErrorCode;

verus! {

/// The absolute floor of a bet, in base token units.
pub const FIXED_MIN_BET: u64 = 100_000;

/// The smallest bet a pool of `pool_balance` accepts.
pub open spec fn min_bet_of(pool_balance: u64) -> int {
    if pool_balance / 1000 > FIXED_MIN_BET {
        (pool_balance / 1000) as int
    } else {
        FIXED_MIN_BET as int
    }
}

/// The largest bet a pool of `pool_balance` accepts.
pub open spec fn max_bet_of(pool_balance: u64) -> int {
    (pool_balance / 2) as int
}

pub open spec fn bet_in_bounds(bet_amount: u64, pool_balance: u64) -> bool {
    min_bet_of(pool_balance) <= bet_amount <= max_bet_of(pool_balance)
}

/// `max(pool_balance / 1000, FIXED_MIN_BET)`.
pub fn min_bet(pool_balance: u64) -> (r: u64)
    ensures
        r == min_bet_of(pool_balance),
{
    let scaled = pool_balance / 1000;
    if scaled > FIXED_MIN_BET {
        scaled
    } else {
        FIXED_MIN_BET
    }
}

/// `pool_balance / 2`.
pub fn max_bet(pool_balance: u64) -> (r: u64)
    ensures
        r == max_bet_of(pool_balance),
{
    pool_balance / 2
}

/// Accepts a bet within `[min_bet, max_bet]` of the pool's current balance.
pub fn validate_bet(bet_amount: u64, pool_balance: u64) -> (r: Result<(), ErrorCode>)
    ensures
        r is Ok <==> bet_in_bounds(bet_amount, pool_balance),
        r is Err ==> r == Err::<(), ErrorCode>(ErrorCode::InvalidOperation),
{
    if bet_amount < min_bet(pool_balance) {
        return Err(ErrorCode::InvalidOperation);
    }
    if bet_amount > max_bet(pool_balance) {
        return Err(ErrorCode::InvalidOperation);
    }
    Ok(())
}

/// Where the bounds leave room for a bet at all, both ends are accepted and
/// the amounts just outside them are refused.
pub proof fn lemma_bounds_are_tight(pool_balance: u64)
    requires
        min_bet_of(pool_balance) <= max_bet_of(pool_balance),
    ensures
        bet_in_bounds(min_bet_of(pool_balance) as u64, pool_balance),
        bet_in_bounds(max_bet_of(pool_balance) as u64, pool_balance),
        min_bet_of(pool_balance) >= 1,
        !bet_in_bounds((min_bet_of(pool_balance) - 1) as u64, pool_balance),
        max_bet_of(pool_balance) + 1 <= u64::MAX,
        !bet_in_bounds((max_bet_of(pool_balance) + 1) as u64, pool_balance),
{
}

} // verus!
