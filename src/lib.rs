//! Settlement of single-round wagers against a shared token pool.
//!
//! The library holds the decisions: bet bounds, the outcome tier of a draw,
//! the payout or the pool/fee split, and the staged update of the pool's
//! counters together with the transfers that the caller must perform.
pub mod state;
pub mod bet;
pub mod outcome;
pub mod payout;
pub mod engine;
pub mod admin;

pub use admin::{fund_pool, initialize, withdraw_profits, FundPool, Initialize, WithdrawProfits};
pub use engine::{spin, spin_with_draw, Spin, SpinOutcome};
pub use state::{Authorizer, ErrorCode, GameState, Identity, SpinResult, TokenAccount, Transfer};
