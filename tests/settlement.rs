use spin_wheel::bet::{max_bet, min_bet, validate_bet};
use spin_wheel::outcome::{draw_seed, generate_random_number, multiplier_for, random_from_digest};
use spin_wheel::payout::{compute_amounts, split_loss, win_amount, Amounts};
use spin_wheel::{
    fund_pool, initialize, spin, spin_with_draw, withdraw_profits, Authorizer, ErrorCode, FundPool,
    GameState, Identity, Initialize, Spin, TokenAccount, WithdrawProfits,
};

fn id(b: u8) -> Identity {
    Identity::new([b; 32])
}

fn state() -> GameState {
    initialize(&Initialize {
        authority: id(1),
        wolf_token_mint: id(2),
        reward_pool: id(3),
        game_state_bump: 254,
    })
}

fn spin_ctx(pool_balance: u64) -> Spin {
    Spin {
        game_state: state(),
        reward_pool: TokenAccount { key: id(3), mint: id(2), owner: id(1), amount: pool_balance },
        player_token_account: TokenAccount { key: id(5), mint: id(2), owner: id(4), amount: 900_000_000 },
        dev_fee_account: TokenAccount { key: id(6), mint: id(2), owner: id(1), amount: 0 },
        authority: id(1),
        player: id(4),
    }
}

fn withdraw_ctx(caller: Identity, pool_balance: u64) -> WithdrawProfits {
    WithdrawProfits {
        game_state: state(),
        reward_pool: TokenAccount { key: id(3), mint: id(2), owner: id(1), amount: pool_balance },
        authority_token_account: TokenAccount { key: id(7), mint: id(2), owner: caller, amount: 0 },
        authority: caller,
    }
}

#[test]
fn scenario_a_double_win() {
    let mut ctx = spin_ctx(1_000_000_000);
    assert_eq!(min_bet(1_000_000_000), 1_000_000);
    assert_eq!(max_bet(1_000_000_000), 500_000_000);
    let out = spin_with_draw(&mut ctx, 1_000_000, 85).unwrap();
    assert_eq!(out.event.multiplier, 200);
    assert_eq!(out.event.payout, 2_000_000);
    assert_eq!(out.event.pool_balance, 998_000_000);
    assert_eq!(out.event.random_number, 85);
    assert_eq!(out.event.player, id(4));
    assert_eq!(out.transfers.len(), 1);
    assert_eq!(out.transfers[0].from, id(3));
    assert_eq!(out.transfers[0].to, id(5));
    assert_eq!(out.transfers[0].amount, 2_000_000);
    assert!(matches!(out.transfers[0].authority, Authorizer::Signer(a) if a == id(1)));
    assert_eq!(ctx.game_state.total_spins, 1);
    assert_eq!(ctx.game_state.dev_fees_collected, 0);
}

#[test]
fn scenario_b_loss_split() {
    let mut ctx = spin_ctx(1_000_000_000);
    let out = spin_with_draw(&mut ctx, 1_000_000, 30).unwrap();
    assert_eq!(out.event.multiplier, 0);
    assert_eq!(out.event.payout, 0);
    assert_eq!(out.event.pool_balance, 1_000_750_000);
    assert_eq!(out.transfers.len(), 2);
    assert_eq!((out.transfers[0].from, out.transfers[0].to), (id(5), id(3)));
    assert_eq!(out.transfers[0].amount, 750_000);
    assert_eq!((out.transfers[1].from, out.transfers[1].to), (id(5), id(6)));
    assert_eq!(out.transfers[1].amount, 250_000);
    assert_eq!(ctx.game_state.total_spins, 1);
    assert_eq!(ctx.game_state.dev_fees_collected, 250_000);
}

#[test]
fn scenario_c_withdrawal_by_stranger() {
    for amount in [0u64, 1, 500, 1_000_000_000, u64::MAX] {
        let ctx = withdraw_ctx(id(9), 1_000_000_000);
        assert_eq!(withdraw_profits(&ctx, amount).unwrap_err(), ErrorCode::Unauthorized);
        assert_eq!(ctx.reward_pool.amount, 1_000_000_000);
    }
}

#[test]
fn scenario_d_bet_below_minimum() {
    let mut ctx = spin_ctx(1_000_000_000);
    let before = ctx.game_state;
    for r in [0u8, 30, 85, 99] {
        assert_eq!(spin_with_draw(&mut ctx, 999_999, r).unwrap_err(), ErrorCode::InvalidOperation);
    }
    assert_eq!(ctx.game_state.total_spins, before.total_spins);
    assert_eq!(ctx.game_state.dev_fees_collected, before.dev_fees_collected);
}

#[test]
fn bet_bounds_boundaries() {
    let pool = 1_000_000_000u64;
    assert!(validate_bet(1_000_000, pool).is_ok());
    assert_eq!(validate_bet(999_999, pool), Err(ErrorCode::InvalidOperation));
    assert!(validate_bet(500_000_000, pool).is_ok());
    assert_eq!(validate_bet(500_000_001, pool), Err(ErrorCode::InvalidOperation));
}

#[test]
fn fixed_floor_applies_to_small_pools() {
    assert_eq!(min_bet(50_000_000), 100_000);
    assert_eq!(min_bet(100_000_000), 100_000);
    assert_eq!(min_bet(100_001_000), 100_001);
    assert_eq!(max_bet(150_000), 75_000);
    // The floor lies above half of this pool: no bet fits.
    assert_eq!(validate_bet(100_000, 150_000), Err(ErrorCode::InvalidOperation));
    assert_eq!(validate_bet(75_000, 150_000), Err(ErrorCode::InvalidOperation));
    assert!(validate_bet(100_000, 200_000).is_ok());
}

#[test]
fn loss_split_has_no_rounding_leak() {
    for bet in [100_000u64, 1_000_001, 999_999_999, 3, u64::MAX] {
        let (to_pool, fee) = split_loss(bet);
        assert_eq!(to_pool as u128 + fee as u128, bet as u128);
        assert_eq!(to_pool as u128, (bet as u128 * 75) / 100);
    }
    assert_eq!(split_loss(1_000_001), (750_000, 250_001));
    assert_eq!(split_loss(u64::MAX), (13_835_058_055_282_163_711, 4_611_686_018_427_387_904));
}

#[test]
fn win_amounts_floor_the_product() {
    assert_eq!(win_amount(1_000_001, 120), Ok(1_200_001));
    assert_eq!(win_amount(1_000_003, 400), Ok(4_000_012));
    assert_eq!(win_amount(u64::MAX, 100), Ok(u64::MAX));
    assert_eq!(win_amount(u64::MAX, 400), Err(ErrorCode::CalculationError));
    assert_eq!(
        compute_amounts(1_000_000, 0, 10),
        Ok(Amounts { payout: 0, to_pool: 750_000, dev_fee: 250_000 })
    );
    assert_eq!(compute_amounts(u64::MAX / 2, 400, u64::MAX), Err(ErrorCode::CalculationError));
    assert_eq!(compute_amounts(1_000_000, 200, 1_999_999), Err(ErrorCode::InsufficientFunds));
    assert_eq!(
        compute_amounts(1_000_000, 200, 2_000_000),
        Ok(Amounts { payout: 2_000_000, to_pool: 0, dev_fee: 0 })
    );
}

#[test]
fn multiplier_table_edges() {
    let cases = [(0u8, 0u64), (59, 0), (60, 120), (79, 120), (80, 200), (89, 200), (90, 400), (99, 400)];
    for (v, m) in cases {
        assert_eq!(multiplier_for(v), m);
    }
}

#[test]
fn payout_over_pool_is_refused() {
    let mut ctx = spin_ctx(1_000_000_000);
    assert_eq!(spin_with_draw(&mut ctx, 500_000_000, 95).unwrap_err(), ErrorCode::InsufficientFunds);
    assert_eq!(ctx.game_state.total_spins, 0);
    let out = spin_with_draw(&mut ctx, 500_000_000, 85).unwrap();
    assert_eq!(out.event.payout, 1_000_000_000);
    assert_eq!(out.event.pool_balance, 0);
    assert_eq!(ctx.game_state.total_spins, 1);
}

#[test]
fn counters_move_only_on_applied_spins() {
    let mut ctx = spin_ctx(1_000_000_000);
    spin_with_draw(&mut ctx, 2_000_000, 10).unwrap();
    spin_with_draw(&mut ctx, 2_000_000, 70).unwrap();
    assert!(spin_with_draw(&mut ctx, 600_000_000, 10).is_err());
    spin_with_draw(&mut ctx, 4_000_000, 59).unwrap();
    assert_eq!(ctx.game_state.total_spins, 3);
    assert_eq!(ctx.game_state.dev_fees_collected, 500_000 + 1_000_000);
}

#[test]
fn counter_overflow_is_refused() {
    let mut ctx = spin_ctx(1_000_000_000);
    ctx.game_state.total_spins = u64::MAX;
    assert_eq!(spin_with_draw(&mut ctx, 1_000_000, 85).unwrap_err(), ErrorCode::CalculationError);
    let mut ctx = spin_ctx(1_000_000_000);
    ctx.game_state.dev_fees_collected = u64::MAX - 100;
    assert_eq!(spin_with_draw(&mut ctx, 1_000_000, 10).unwrap_err(), ErrorCode::CalculationError);
    assert_eq!(ctx.game_state.total_spins, 0);
    assert_eq!(ctx.game_state.dev_fees_collected, u64::MAX - 100);
}

#[test]
fn mismatched_accounts_are_refused() {
    let mut ctx = spin_ctx(1_000_000_000);
    ctx.player_token_account.owner = id(8);
    assert_eq!(spin_with_draw(&mut ctx, 1_000_000, 85).unwrap_err(), ErrorCode::InvalidOperation);
    let mut ctx = spin_ctx(1_000_000_000);
    ctx.dev_fee_account.mint = id(8);
    assert_eq!(spin_with_draw(&mut ctx, 1_000_000, 85).unwrap_err(), ErrorCode::InvalidOperation);
    let mut ctx = spin_ctx(1_000_000_000);
    ctx.authority = id(8);
    assert_eq!(spin_with_draw(&mut ctx, 1_000_000, 85).unwrap_err(), ErrorCode::Unauthorized);
    assert_eq!(ctx.game_state.total_spins, 0);
}

#[test]
fn draw_seed_layout() {
    let seed = draw_seed(0x0102, 7, &id(4));
    assert_eq!(seed.len(), 48);
    assert_eq!(&seed[0..8], &[2, 1, 0, 0, 0, 0, 0, 0]);
    assert_eq!(&seed[8..16], &[7, 0, 0, 0, 0, 0, 0, 0]);
    assert_eq!(&seed[16..48], &[4u8; 32]);
}

#[test]
fn draw_uses_the_sha256_digest() {
    let seed = draw_seed(12_345, 3, &id(4));
    let digest = anchor_lang::solana_program::hash::hash(&seed).to_bytes();
    let v = generate_random_number(12_345, 3, &id(4));
    assert_eq!(v, digest[0] % 100);
    assert!(v < 100);
    let mut d = [0u8; 32];
    d[0] = 250;
    assert_eq!(random_from_digest(&d), 50);
}

#[test]
fn spin_draws_from_the_counter() {
    let mut ctx = spin_ctx(1_000_000_000);
    let expected = generate_random_number(42, 0, &id(4));
    let out = spin(&mut ctx, 1_000_000, 42).unwrap();
    assert_eq!(out.event.random_number, expected);
    assert_eq!(out.event.multiplier, multiplier_for(expected));
    assert_eq!(ctx.game_state.total_spins, 1);
}

#[test]
fn withdrawal_by_authority() {
    let ctx = withdraw_ctx(id(1), 1_000);
    let t = withdraw_profits(&ctx, 1_000).unwrap();
    assert_eq!((t.from, t.to, t.amount), (id(3), id(7), 1_000));
    assert!(matches!(t.authority, Authorizer::Pool { bump: 254 }));
    assert_eq!(withdraw_profits(&ctx, 1_001).unwrap_err(), ErrorCode::InsufficientFunds);
    let mut bad = withdraw_ctx(id(1), 1_000);
    bad.reward_pool.key = id(8);
    assert_eq!(withdraw_profits(&bad, 10).unwrap_err(), ErrorCode::InvalidOperation);
}

#[test]
fn funding_is_open() {
    let ctx = FundPool {
        game_state: state(),
        reward_pool: TokenAccount { key: id(3), mint: id(2), owner: id(1), amount: 0 },
        funder_token_account: TokenAccount { key: id(10), mint: id(2), owner: id(9), amount: 50 },
        funder: id(9),
    };
    let t = fund_pool(&ctx, 50).unwrap();
    assert_eq!((t.from, t.to, t.amount), (id(10), id(3), 50));
    let mut bad = ctx;
    bad.funder_token_account.mint = id(8);
    assert_eq!(fund_pool(&bad, 50).unwrap_err(), ErrorCode::InvalidOperation);
}

#[test]
fn initialize_starts_counters_at_zero() {
    let gs = state();
    assert_eq!(gs.authority, id(1));
    assert_eq!(gs.wolf_token_mint, id(2));
    assert_eq!(gs.reward_pool, id(3));
    assert_eq!((gs.total_spins, gs.dev_fees_collected, gs.bump), (0, 0, 254));
    assert_eq!(ErrorCode::Unauthorized.message(), "Unauthorized");
    assert_eq!(ErrorCode::CalculationError.message(), "Calculation error");
}
