use vstd::prelude::*;
use crate::state::{Authorizer, ErrorCode, GameState, Identity, TokenAccount, Transfer};
use crate::engine::same_identity;

verus! {

/// What creating a pool binds: its administrative identity, the token type
/// and the pool account, and the derivation bump of the pool record.
#[derive(Clone, Copy, Debug)]
pub struct Initialize {
    pub authority: Identity,
    pub wolf_token_mint: Identity,
    pub reward_pool: Identity,
    pub game_state_bump: u8,
}

/// The accounts a withdrawal reads.
#[derive(Clone, Copy, Debug)]
pub struct WithdrawProfits {
    pub game_state: GameState,
    pub reward_pool: TokenAccount,
    pub authority_token_account: TokenAccount,
    pub authority: Identity,
}

/// The accounts a deposit into the pool reads.
#[derive(Clone, Copy, Debug)]
pub struct FundPool {
    pub game_state: GameState,
    pub reward_pool: TokenAccount,
    pub funder_token_account: TokenAccount,
    pub funder: Identity,
}

/// Creates the pool record, with both counters at zero.
pub fn initialize(ctx: &Initialize) -> (r: GameState)
    ensures
        r == (GameState {
            authority: ctx.authority,
            wolf_token_mint: ctx.wolf_token_mint,
            reward_pool: ctx.reward_pool,
            total_spins: 0,
            dev_fees_collected: 0,
            bump: ctx.game_state_bump,
        }),
{
    GameState {
        authority: ctx.authority,
        wolf_token_mint: ctx.wolf_token_mint,
        reward_pool: ctx.reward_pool,
        total_spins: 0,
        dev_fees_collected: 0,
        bump: ctx.game_state_bump,
    }
}

/// Why a withdrawal of `amount` is refused, if it is: a caller other than
/// the authority first, then accounts that do not match the pool's bindings,
/// then an amount over the pool's balance.
pub open spec fn withdraw_error(ctx: WithdrawProfits, amount: u64) -> Option<ErrorCode> {
    let gs = ctx.game_state;
    if !same_identity(ctx.authority, gs.authority) {
        Some(ErrorCode::Unauthorized)
    } else if !(same_identity(ctx.reward_pool.key, gs.reward_pool) && same_identity(
        ctx.authority_token_account.mint,
        gs.wolf_token_mint,
    ) && same_identity(ctx.authority_token_account.owner, ctx.authority)) {
        Some(ErrorCode::InvalidOperation)
    } else if amount > ctx.reward_pool.amount {
        Some(ErrorCode::InsufficientFunds)
    } else {
        None
    }
}

/// Withdraws `amount` from the pool to the authority's account, authorized
/// by the pool's own signing capability.
pub fn withdraw_profits(ctx: &WithdrawProfits, amount: u64) -> (r: Result<Transfer, ErrorCode>)
    ensures
        r is Ok <==> withdraw_error(*ctx, amount) is None,
        r is Err ==> Some(r->Err_0) == withdraw_error(*ctx, amount),
        r is Ok ==> r->Ok_0 == (Transfer {
            from: ctx.reward_pool.key,
            to: ctx.authority_token_account.key,
            authority: Authorizer::Pool { bump: ctx.game_state.bump },
            amount,
        }),
        !same_identity(ctx.authority, ctx.game_state.authority) ==> r == Err::<Transfer, ErrorCode>(
            ErrorCode::Unauthorized,
        ),
{
    let gs = &ctx.game_state;
    if !(ctx.authority == gs.authority) {
        return Err(ErrorCode::Unauthorized);
    }
    let bound = ctx.reward_pool.key == gs.reward_pool
        && ctx.authority_token_account.mint == gs.wolf_token_mint
        && ctx.authority_token_account.owner == ctx.authority;
    if !bound {
        return Err(ErrorCode::InvalidOperation);
    }
    if amount > ctx.reward_pool.amount {
        return Err(ErrorCode::InsufficientFunds);
    }
    Ok(
        Transfer {
            from: ctx.reward_pool.key,
            to: ctx.authority_token_account.key,
            authority: Authorizer::Pool { bump: gs.bump },
            amount,
        },
    )
}

/// Whether the presented accounts of a deposit match the pool's bindings.
pub open spec fn fund_accounts_bound(ctx: FundPool) -> bool {
    &&& same_identity(ctx.reward_pool.key, ctx.game_state.reward_pool)
    &&& same_identity(ctx.funder_token_account.mint, ctx.game_state.wolf_token_mint)
}

/// Deposits `amount` from the funder's account into the pool; anyone may
/// fund it.
pub fn fund_pool(ctx: &FundPool, amount: u64) -> (r: Result<Transfer, ErrorCode>)
    ensures
        r is Ok <==> fund_accounts_bound(*ctx),
        r is Err ==> r->Err_0 == ErrorCode::InvalidOperation,
        r is Ok ==> r->Ok_0 == (Transfer {
            from: ctx.funder_token_account.key,
            to: ctx.reward_pool.key,
            authority: Authorizer::Signer(ctx.funder),
            amount,
        }),
{
    let bound = ctx.reward_pool.key == ctx.game_state.reward_pool
        && ctx.funder_token_account.mint == ctx.game_state.wolf_token_mint;
    if !bound {
        return Err(ErrorCode::InvalidOperation);
    }
    Ok(
        Transfer {
            from: ctx.funder_token_account.key,
            to: ctx.reward_pool.key,
            authority: Authorizer::Signer(ctx.funder),
            amount,
        },
    )
}

} // verus!
