use vstd::prelude::*;
use crate::state::{Authorizer, ErrorCode, GameState, Identity, SpinResult, TokenAccount, Transfer};
use crate::bet::{bet_in_bounds, validate_bet};
use crate::outcome::{draw_value, generate_random_number, multiplier_for, multiplier_of};
use crate::payout::{amounts_of, compute_amounts, loss_dev_fee, win_payout, Amounts};

verus! {

/// The accounts a spin reads, as the caller presents them.
#[derive(Clone, Copy, Debug)]
pub struct Spin {
    pub game_state: GameState,
    pub reward_pool: TokenAccount,
    pub player_token_account: TokenAccount,
    pub dev_fee_account: TokenAccount,
    pub authority: Identity,
    pub player: Identity,
}

/// What an applied spin hands back: the transfers to perform, in order, and
/// the settlement record.
#[derive(Debug)]
pub struct SpinOutcome {
    pub transfers: Vec<Transfer>,
    pub event: SpinResult,
}

pub open spec fn same_identity(a: Identity, b: Identity) -> bool {
    a.bytes@ == b.bytes@
}

/// Whether the presented accounts match the bindings the pool recorded.
pub open spec fn spin_accounts_bound(ctx: Spin) -> bool {
    let gs = ctx.game_state;
    &&& same_identity(ctx.reward_pool.key, gs.reward_pool)
    &&& same_identity(ctx.reward_pool.mint, gs.wolf_token_mint)
    &&& same_identity(ctx.player_token_account.mint, gs.wolf_token_mint)
    &&& same_identity(ctx.player_token_account.owner, ctx.player)
    &&& same_identity(ctx.dev_fee_account.mint, gs.wolf_token_mint)
    &&& same_identity(ctx.dev_fee_account.owner, gs.authority)
}

/// Why a spin with this bet and drawn value is rejected, if it is.
pub open spec fn spin_error(ctx: Spin, bet_amount: u64, random_number: u8) -> Option<ErrorCode> {
    let pool = ctx.reward_pool.amount;
    let amounts = amounts_of(bet_amount, multiplier_of(random_number), pool);
    if !spin_accounts_bound(ctx) {
        Some(ErrorCode::InvalidOperation)
    } else if !same_identity(ctx.authority, ctx.game_state.authority) {
        Some(ErrorCode::Unauthorized)
    } else if !bet_in_bounds(bet_amount, pool) {
        Some(ErrorCode::InvalidOperation)
    } else if amounts is Err {
        Some(amounts->Err_0)
    } else if ctx.game_state.total_spins == u64::MAX {
        Some(ErrorCode::CalculationError)
    } else if ctx.game_state.dev_fees_collected + amounts->Ok_0.dev_fee > u64::MAX {
        Some(ErrorCode::CalculationError)
    } else if pool + amounts->Ok_0.to_pool > u64::MAX {
        Some(ErrorCode::CalculationError)
    } else {
        None
    }
}

/// The amounts of a spin that is not rejected.
pub open spec fn spin_amounts(ctx: Spin, bet_amount: u64, random_number: u8) -> Amounts {
    amounts_of(bet_amount, multiplier_of(random_number), ctx.reward_pool.amount)->Ok_0
}

/// The pool record after an applied spin.
pub open spec fn spun_state(ctx: Spin, bet_amount: u64, random_number: u8) -> GameState {
    let a = spin_amounts(ctx, bet_amount, random_number);
    GameState {
        total_spins: (ctx.game_state.total_spins + 1) as u64,
        dev_fees_collected: (ctx.game_state.dev_fees_collected + a.dev_fee) as u64,
        ..ctx.game_state
    }
}

/// The transfers of an applied spin: the payout from the pool to the bettor
/// on a win; on a loss, the pool's share and then the fee, both from the
/// bettor.
pub open spec fn spin_transfers(ctx: Spin, bet_amount: u64, random_number: u8) -> Seq<Transfer> {
    let a = spin_amounts(ctx, bet_amount, random_number);
    if multiplier_of(random_number) == 0 {
        seq![
            Transfer {
                from: ctx.player_token_account.key,
                to: ctx.reward_pool.key,
                authority: Authorizer::Signer(ctx.player),
                amount: a.to_pool,
            },
            Transfer {
                from: ctx.player_token_account.key,
                to: ctx.dev_fee_account.key,
                authority: Authorizer::Signer(ctx.player),
                amount: a.dev_fee,
            },
        ]
    } else {
        seq![
            Transfer {
                from: ctx.reward_pool.key,
                to: ctx.player_token_account.key,
                authority: Authorizer::Signer(ctx.authority),
                amount: a.payout,
            },
        ]
    }
}

/// The settlement record of an applied spin.
pub open spec fn spin_event(ctx: Spin, bet_amount: u64, random_number: u8) -> SpinResult {
    let a = spin_amounts(ctx, bet_amount, random_number);
    let pool = ctx.reward_pool.amount;
    SpinResult {
        player: ctx.player,
        bet_amount,
        multiplier: multiplier_of(random_number),
        payout: a.payout,
        random_number,
        pool_balance: if multiplier_of(random_number) == 0 {
            (pool + a.to_pool) as u64
        } else {
            (pool - a.payout) as u64
        },
    }
}

/// An applied settlement advances the spin counter by exactly one, and the
/// collected fees by the fee of a loss and by nothing on a win; the other
/// fields of the pool record stay as they were.
pub proof fn lemma_applied_counters(ctx: Spin, bet_amount: u64, random_number: u8)
    requires
        spin_error(ctx, bet_amount, random_number) is None,
    ensures
        spun_state(ctx, bet_amount, random_number).total_spins == ctx.game_state.total_spins + 1,
        spun_state(ctx, bet_amount, random_number).dev_fees_collected
            == ctx.game_state.dev_fees_collected + (if multiplier_of(random_number) == 0 {
            loss_dev_fee(bet_amount)
        } else {
            0
        }),
        spun_state(ctx, bet_amount, random_number).authority == ctx.game_state.authority,
        spun_state(ctx, bet_amount, random_number).wolf_token_mint
            == ctx.game_state.wolf_token_mint,
        spun_state(ctx, bet_amount, random_number).reward_pool == ctx.game_state.reward_pool,
        spun_state(ctx, bet_amount, random_number).bump == ctx.game_state.bump,
{
    crate::payout::lemma_loss_split_is_exact(bet_amount);
}

/// A loss that is applied moves the whole bet, split between the pool and the
/// fee sink; a win that is applied pays the floor of the product and no more
/// than the pool held.
pub proof fn lemma_applied_amounts(ctx: Spin, bet_amount: u64, random_number: u8)
    requires
        spin_error(ctx, bet_amount, random_number) is None,
    ensures
        multiplier_of(random_number) == 0 ==> spin_transfers(ctx, bet_amount, random_number)[0].amount
            + spin_transfers(ctx, bet_amount, random_number)[1].amount == bet_amount,
        multiplier_of(random_number) != 0 ==> spin_transfers(
            ctx,
            bet_amount,
            random_number,
        )[0].amount == win_payout(bet_amount, multiplier_of(random_number)),
        multiplier_of(random_number) != 0 ==> spin_transfers(
            ctx,
            bet_amount,
            random_number,
        )[0].amount <= ctx.reward_pool.amount,
{
    crate::payout::lemma_loss_split_is_exact(bet_amount);
    if multiplier_of(random_number) != 0 {
        crate::payout::lemma_win_is_covered(
            bet_amount,
            multiplier_of(random_number),
            ctx.reward_pool.amount,
        );
    }
}

/// Checks the presented accounts against the pool's bindings, then the
/// authority's identity.
pub fn check_spin_accounts(ctx: &Spin) -> (r: Result<(), ErrorCode>)
    ensures
        r is Ok <==> spin_accounts_bound(*ctx) && same_identity(
            ctx.authority,
            ctx.game_state.authority,
        ),
        r is Err ==> r->Err_0 == (if !spin_accounts_bound(*ctx) {
            ErrorCode::InvalidOperation
        } else {
            ErrorCode::Unauthorized
        }),
{
    let gs = &ctx.game_state;
    let bound = ctx.reward_pool.key == gs.reward_pool
        && ctx.reward_pool.mint == gs.wolf_token_mint
        && ctx.player_token_account.mint == gs.wolf_token_mint
        && ctx.player_token_account.owner == ctx.player
        && ctx.dev_fee_account.mint == gs.wolf_token_mint
        && ctx.dev_fee_account.owner == gs.authority;
    if !bound {
        return Err(ErrorCode::InvalidOperation);
    }
    if !(ctx.authority == gs.authority) {
        return Err(ErrorCode::Unauthorized);
    }
    Ok(())
}

/// Settles one spin whose value has been drawn: validates, computes, and only
/// then commits the counters, in one step. On rejection nothing changes and
/// no transfer is planned. The exclusive borrow of `ctx` covers the whole
/// validate-draw-compute-commit sequence; the caller performs the returned
/// transfers and stores the new pool record together, or does neither.
pub fn spin_with_draw(ctx: &mut Spin, bet_amount: u64, random_number: u8) -> (r: Result<
    SpinOutcome,
    ErrorCode,
>)
    requires
        random_number < 100,
    ensures
        r is Ok <==> spin_error(*old(ctx), bet_amount, random_number) is None,
        r is Err ==> Some(r->Err_0) == spin_error(*old(ctx), bet_amount, random_number),
        r is Err ==> *final(ctx) == *old(ctx),
        r is Ok ==> *final(ctx) == (Spin {
            game_state: spun_state(*old(ctx), bet_amount, random_number),
            ..*old(ctx)
        }),
        r is Ok ==> r->Ok_0.transfers@ == spin_transfers(*old(ctx), bet_amount, random_number),
        r is Ok ==> r->Ok_0.event == spin_event(*old(ctx), bet_amount, random_number),
        r is Ok ==> final(ctx).game_state.total_spins == old(ctx).game_state.total_spins + 1,
        r is Ok ==> final(ctx).game_state.dev_fees_collected
            == old(ctx).game_state.dev_fees_collected + (if multiplier_of(random_number) == 0 {
            loss_dev_fee(bet_amount)
        } else {
            0
        }),
        r is Ok && multiplier_of(random_number) != 0 ==> r->Ok_0.event.payout == win_payout(
            bet_amount,
            multiplier_of(random_number),
        ) && r->Ok_0.event.payout <= old(ctx).reward_pool.amount,
        r is Ok && multiplier_of(random_number) == 0 ==> r->Ok_0.transfers@[0].amount
            + r->Ok_0.transfers@[1].amount == bet_amount,
{
    match check_spin_accounts(ctx) {
        Ok(()) => {},
        Err(e) => return Err(e),
    }
    let pool = ctx.reward_pool.amount;
    match validate_bet(bet_amount, pool) {
        Ok(()) => {},
        Err(e) => return Err(e),
    }
    let multiplier = multiplier_for(random_number);
    let amounts = match compute_amounts(bet_amount, multiplier, pool) {
        Ok(a) => a,
        Err(e) => return Err(e),
    };
    if ctx.game_state.total_spins == u64::MAX {
        return Err(ErrorCode::CalculationError);
    }
    if amounts.dev_fee > u64::MAX - ctx.game_state.dev_fees_collected {
        return Err(ErrorCode::CalculationError);
    }
    if amounts.to_pool > u64::MAX - pool {
        return Err(ErrorCode::CalculationError);
    }
    let mut transfers: Vec<Transfer> = Vec::new();
    let pool_after;
    if multiplier == 0 {
        transfers.push(
            Transfer {
                from: ctx.player_token_account.key,
                to: ctx.reward_pool.key,
                authority: Authorizer::Signer(ctx.player),
                amount: amounts.to_pool,
            },
        );
        transfers.push(
            Transfer {
                from: ctx.player_token_account.key,
                to: ctx.dev_fee_account.key,
                authority: Authorizer::Signer(ctx.player),
                amount: amounts.dev_fee,
            },
        );
        pool_after = pool + amounts.to_pool;
    } else {
        transfers.push(
            Transfer {
                from: ctx.reward_pool.key,
                to: ctx.player_token_account.key,
                authority: Authorizer::Signer(ctx.authority),
                amount: amounts.payout,
            },
        );
        pool_after = pool - amounts.payout;
    }
    let event = SpinResult {
        player: ctx.player,
        bet_amount,
        multiplier,
        payout: amounts.payout,
        random_number,
        pool_balance: pool_after,
    };
    ctx.game_state.total_spins = ctx.game_state.total_spins + 1;
    ctx.game_state.dev_fees_collected = ctx.game_state.dev_fees_collected + amounts.dev_fee;
    assert(transfers@ =~= spin_transfers(*old(ctx), bet_amount, random_number));
    proof {
        lemma_applied_counters(*old(ctx), bet_amount, random_number);
        lemma_applied_amounts(*old(ctx), bet_amount, random_number);
    }
    Ok(SpinOutcome { transfers, event })
}

/// Settles one spin, drawing its value from the slot height, the spin counter
/// before this spin, and the bettor's identity.
pub fn spin(ctx: &mut Spin, bet_amount: u64, slot: u64) -> (r: Result<SpinOutcome, ErrorCode>)
    ensures
        ({
            let v = draw_value(slot, old(ctx).game_state.total_spins, old(ctx).player.bytes@);
            &&& r is Ok <==> spin_error(*old(ctx), bet_amount, v) is None
            &&& r is Err ==> Some(r->Err_0) == spin_error(*old(ctx), bet_amount, v)
            &&& r is Err ==> *final(ctx) == *old(ctx)
            &&& r is Ok ==> *final(ctx) == (Spin {
                game_state: spun_state(*old(ctx), bet_amount, v),
                ..*old(ctx)
            })
            &&& r is Ok ==> r->Ok_0.transfers@ == spin_transfers(*old(ctx), bet_amount, v)
            &&& r is Ok ==> r->Ok_0.event == spin_event(*old(ctx), bet_amount, v)
        }),
{
    let random_number = generate_random_number(slot, ctx.game_state.total_spins, &ctx.player);
    spin_with_draw(ctx, bet_amount, random_number)
}

} // verus!
