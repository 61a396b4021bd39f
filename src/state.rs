use vstd::prelude::*;

verus! {

/// A 32-byte account or wallet identity.
#[derive(Clone, Copy, Debug)]
pub struct Identity {
    pub bytes: [u8; 32],
}

impl Identity {
    pub fn new(bytes: [u8; 32]) -> (r: Identity)
        ensures
            r.bytes@ == bytes@,
    {
        Identity { bytes }
    }
}

impl PartialEq for Identity {
    fn eq(&self, o: &Identity) -> (r: bool) {
        let mut i: usize = 0;
        while i < 32
            invariant
                i <= 32,
                forall|j: int| 0 <= j < i ==> self.bytes@[j] == o.bytes@[j],
            decreases 32 - i,
        {
            if self.bytes[i] != o.bytes[i] {
                return false;
            }
            i = i + 1;
        }
        assert(self.bytes@ =~= o.bytes@);
        true
    }
}

impl vstd::std_specs::cmp::PartialEqSpecImpl for Identity {
    open spec fn obeys_eq_spec() -> bool {
        true
    }

    open spec fn eq_spec(&self, o: &Identity) -> bool {
        self.bytes@ == o.bytes@
    }
}

/// What the logic reads of a token account: its address, the token type it
/// holds, its owner and its balance.
#[derive(Clone, Copy, Debug)]
pub struct TokenAccount {
    pub key: Identity,
    pub mint: Identity,
    pub owner: Identity,
    pub amount: u64,
}

/// The persistent record of one wagering pool.
#[derive(Clone, Copy, Debug)]
pub struct GameState {
    pub authority: Identity,
    pub wolf_token_mint: Identity,
    pub reward_pool: Identity,
    pub total_spins: u64,
    pub dev_fees_collected: u64,
    pub bump: u8,
}

/// The record emitted once per applied settlement.
#[derive(Clone, Copy, Debug)]
pub struct SpinResult {
    pub player: Identity,
    pub bet_amount: u64,
    pub multiplier: u64,
    pub payout: u64,
    pub random_number: u8,
    pub pool_balance: u64,
}

/// The reasons for which a request is rejected.
#[derive(Clone, Copy, Debug, PartialEq, Eq, Structural)]
pub enum ErrorCode {
    InvalidOperation,
    InsufficientFunds,
    Unauthorized,
    CalculationError,
}

impl ErrorCode {
    /// The human-readable message of each error.
    pub fn message(&self) -> (r: &'static str)
        ensures
            r@ == error_message(*self),
    {
        match self {
            ErrorCode::InvalidOperation => "Invalid operation",
            ErrorCode::InsufficientFunds => "Insufficient funds",
            ErrorCode::Unauthorized => "Unauthorized",
            ErrorCode::CalculationError => "Calculation error",
        }
    }
}

pub open spec fn error_message(e: ErrorCode) -> Seq<char> {
    match e {
        ErrorCode::InvalidOperation => "Invalid operation"@,
        ErrorCode::InsufficientFunds => "Insufficient funds"@,
        ErrorCode::Unauthorized => "Unauthorized"@,
        ErrorCode::CalculationError => "Calculation error"@,
    }
}

/// Who authorizes a transfer: the owner of the source account, or the pool
/// itself through the signing capability derived from its seed.
#[derive(Clone, Copy, Debug)]
pub enum Authorizer {
    Signer(Identity),
    Pool { bump: u8 },
}

/// One token transfer that the caller must perform through the ledger.
#[derive(Clone, Copy, Debug)]
pub struct Transfer {
    pub from: Identity,
    pub to: Identity,
    pub authority: Authorizer,
    pub amount: u64,
}

} // verus!
