//! The persisted records of the engine and its error kinds.
use vstd::prelude::*;
use crate::ids::Pubkey;

verus! {

/// Why an operation was refused. Every refusal leaves all state as it was.
#[derive(Clone, Copy, Debug, PartialEq, Eq, Structural)]
pub enum ErrorCode {
    /// The stake is zero.
    InvalidBetAmount,
    /// The treasury could not cover a win of the stake.
    InsufficientHouseBalance,
    /// The wager was settled before.
    BetAlreadySettled,
    /// The wager record or its escrow account already exists.
    DuplicateWager,
    /// The caller or an account does not match the recorded authority.
    Unauthorized,
    /// A counter or a balance would overflow.
    ArithmeticOverflow,
    /// An account holds less than a transfer takes from it.
    InsufficientFunds,
    /// The treasury was initialized before.
    AlreadyExists,
    /// A named account or record does not exist.
    AccountNotFound,
}

/// The treasury: its authority, the account holding its pooled funds, and
/// how many settlements the house won and lost.
#[derive(Clone, Copy, Debug, PartialEq, Eq, Structural)]
pub struct House {
    pub bump: u8,
    pub authority: Pubkey,
    pub house_token_account: Pubkey,
    pub win_count: u64,
    pub loss_count: u64,
}

/// One wager, keyed by its user and seed. `house_seed` and `result` mean
/// something only once `settled` holds.
#[derive(Clone, Copy, Debug, PartialEq, Eq, Structural)]
pub struct Bet {
    pub user: Pubkey,
    pub amount: u64,
    pub user_guess: bool,
    pub user_seed: u64,
    pub house_seed: u64,
    pub result: bool,
    pub settled: bool,
    pub escrow_token_account: Pubkey,
}

} // verus!
