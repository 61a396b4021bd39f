use vstd::prelude::*;
use crate::state::ErrorCode;

verus! {

/// The share of a losing bet that goes to the pool: `floor(bet * 75 / 100)`.
pub open spec fn loss_to_pool(bet_amount: u64) -> int {
    (bet_amount * 75) / 100
}

/// The share of a losing bet that goes to the fee sink: the rest of the bet.
pub open spec fn loss_dev_fee(bet_amount: u64) -> int {
    bet_amount - loss_to_pool(bet_amount)
}

/// The payout of a winning bet: `floor(bet * multiplier_percent / 100)`.
pub open spec fn win_payout(bet_amount: u64, multiplier_percent: u64) -> int {
    (bet_amount * multiplier_percent) / 100
}

/// The amounts one settlement moves.
#[derive(Clone, Copy, Debug, PartialEq, Eq, Structural)]
pub struct Amounts {
    pub payout: u64,
    pub to_pool: u64,
    pub dev_fee: u64,
}

/// What the calculator returns for a bet, a multiplier and the pool balance.
pub open spec fn amounts_of(bet_amount: u64, multiplier_percent: u64, pool_balance: u64) -> Result<
    Amounts,
    ErrorCode,
> {
    if multiplier_percent == 0 {
        Ok(
            Amounts {
                payout: 0,
                to_pool: loss_to_pool(bet_amount) as u64,
                dev_fee: loss_dev_fee(bet_amount) as u64,
            },
        )
    } else if win_payout(bet_amount, multiplier_percent) > u64::MAX {
        Err(ErrorCode::CalculationError)
    } else if win_payout(bet_amount, multiplier_percent) > pool_balance {
        Err(ErrorCode::InsufficientFunds)
    } else {
        Ok(
            Amounts {
                payout: win_payout(bet_amount, multiplier_percent) as u64,
                to_pool: 0,
                dev_fee: 0,
            },
        )
    }
}

proof fn lemma_loss_share_bounds(bet_amount: u64)
    ensures
        0 <= loss_to_pool(bet_amount) <= bet_amount,
{
    assert(0 <= (bet_amount * 75) / 100 <= bet_amount) by (nonlinear_arith);
}

/// A losing bet is split between the pool and the fee sink with nothing lost
/// to rounding.
pub proof fn lemma_loss_split_is_exact(bet_amount: u64)
    ensures
        0 <= loss_to_pool(bet_amount),
        0 <= loss_dev_fee(bet_amount),
        loss_to_pool(bet_amount) + loss_dev_fee(bet_amount) == bet_amount,
{
    lemma_loss_share_bounds(bet_amount);
}

/// Splits a losing bet: `to_pool = floor(bet * 75 / 100)` and
/// `dev_fee = bet - to_pool`.
pub fn split_loss(bet_amount: u64) -> (r: (u64, u64))
    ensures
        r.0 == loss_to_pool(bet_amount),
        r.1 == loss_dev_fee(bet_amount),
        r.0 + r.1 == bet_amount,
{
    proof {
        lemma_loss_share_bounds(bet_amount);
    }
    let wide = (bet_amount as u128) * 75;
    let to_pool = (wide / 100) as u64;
    let dev_fee = bet_amount - to_pool;
    (to_pool, dev_fee)
}

/// The payout of a win, `floor(bet * multiplier_percent / 100)`, computed in
/// 128 bits; `CalculationError` where it does not fit in 64 bits.
pub fn win_amount(bet_amount: u64, multiplier_percent: u64) -> (r: Result<u64, ErrorCode>)
    ensures
        r is Ok <==> win_payout(bet_amount, multiplier_percent) <= u64::MAX,
        r is Ok ==> r->Ok_0 == win_payout(bet_amount, multiplier_percent),
        r is Err ==> r->Err_0 == ErrorCode::CalculationError,
{
    proof {
        assert(0 <= bet_amount * multiplier_percent <= u128::MAX) by (nonlinear_arith)
            requires
                bet_amount <= u64::MAX,
                multiplier_percent <= u64::MAX,
        ;
    }
    let wide = (bet_amount as u128) * (multiplier_percent as u128);
    let payout = wide / 100;
    if payout > u64::MAX as u128 {
        return Err(ErrorCode::CalculationError);
    }
    Ok(payout as u64)
}

/// Computes what one settlement moves: the pool/fee split of a loss
/// (`multiplier_percent == 0`), or the payout of a win, refused where it does
/// not fit (`CalculationError`) or exceeds the pool (`InsufficientFunds`).
pub fn compute_amounts(bet_amount: u64, multiplier_percent: u64, pool_balance: u64) -> (r: Result<
    Amounts,
    ErrorCode,
>)
    ensures
        r == amounts_of(bet_amount, multiplier_percent, pool_balance),
{
    if multiplier_percent == 0 {
        let (to_pool, dev_fee) = split_loss(bet_amount);
        return Ok(Amounts { payout: 0, to_pool, dev_fee });
    }
    let payout = match win_amount(bet_amount, multiplier_percent) {
        Ok(p) => p,
        Err(e) => return Err(e),
    };
    if payout > pool_balance {
        return Err(ErrorCode::InsufficientFunds);
    }
    Ok(Amounts { payout, to_pool: 0, dev_fee: 0 })
}

/// A win that the calculator accepts pays exactly the floor of the product
/// and never more than the pool holds.
pub proof fn lemma_win_is_covered(bet_amount: u64, multiplier_percent: u64, pool_balance: u64)
    requires
        multiplier_percent != 0,
        amounts_of(bet_amount, multiplier_percent, pool_balance) is Ok,
    ensures
        amounts_of(bet_amount, multiplier_percent, pool_balance)->Ok_0.payout == win_payout(
            bet_amount,
            multiplier_percent,
        ),
        amounts_of(bet_amount, multiplier_percent, pool_balance)->Ok_0.payout <= pool_balance,
{
}

} // verus!
