use coin_flip::coin_flip::{coin_result, CoinFlip};
use coin_flip::ids::{bet_address, house_address, Address, Pubkey};
use coin_flip::state::ErrorCode;

fn key(n: u128) -> Pubkey {
    Pubkey::new(0, n)
}

const AUTHORITY: u128 = 1;
const AUTHORITY_ACCOUNT: u128 = 2;
const TREASURY: u128 = 3;
const USER: u128 = 10;
const USER_ACCOUNT: u128 = 11;
const ESCROW: u128 = 12;

/// A treasury holding `deposit` and a user account holding `user_funds`.
fn setup(deposit: u64, user_funds: u64) -> CoinFlip {
    let mut g = CoinFlip::new();
    assert_eq!(g.open_token_account(key(TREASURY), house_address(), 0), Ok(()));
    assert_eq!(
        g.open_token_account(key(AUTHORITY_ACCOUNT), Address::Wallet(key(AUTHORITY)), 5000),
        Ok(())
    );
    assert_eq!(
        g.open_token_account(key(USER_ACCOUNT), Address::Wallet(key(USER)), user_funds),
        Ok(())
    );
    assert_eq!(g.initialize_house(key(AUTHORITY), key(TREASURY), 254), Ok(()));
    assert_eq!(g.deposit_house(key(AUTHORITY), key(AUTHORITY_ACCOUNT), deposit), Ok(()));
    g
}

#[test]
fn initialize_house_sets_counters_to_zero() {
    let mut g = CoinFlip::new();
    assert_eq!(g.initialize_house(key(AUTHORITY), key(TREASURY), 7), Ok(()));
    let h = g.house().unwrap();
    assert_eq!(h.authority, key(AUTHORITY));
    assert_eq!(h.house_token_account, key(TREASURY));
    assert_eq!(h.bump, 7);
    assert_eq!(h.win_count, 0);
    assert_eq!(h.loss_count, 0);
}

#[test]
fn initialize_house_twice_is_refused() {
    let mut g = CoinFlip::new();
    assert_eq!(g.initialize_house(key(AUTHORITY), key(TREASURY), 7), Ok(()));
    assert_eq!(
        g.initialize_house(key(99), key(98), 1),
        Err(ErrorCode::AlreadyExists)
    );
    assert_eq!(g.house().unwrap().authority, key(AUTHORITY));
}

#[test]
fn deposit_moves_funds_into_treasury() {
    let g = setup(1000, 0);
    assert_eq!(g.balance(key(TREASURY)), Some(1000));
    assert_eq!(g.balance(key(AUTHORITY_ACCOUNT)), Some(4000));
}

#[test]
fn deposit_by_non_authority_is_refused() {
    let mut g = setup(1000, 500);
    assert_eq!(
        g.deposit_house(key(USER), key(USER_ACCOUNT), 100),
        Err(ErrorCode::Unauthorized)
    );
    assert_eq!(g.balance(key(TREASURY)), Some(1000));
}

#[test]
fn deposit_beyond_funds_is_refused() {
    let mut g = setup(1000, 0);
    assert_eq!(
        g.deposit_house(key(AUTHORITY), key(AUTHORITY_ACCOUNT), 4001),
        Err(ErrorCode::InsufficientFunds)
    );
    assert_eq!(g.balance(key(TREASURY)), Some(1000));
}

#[test]
fn deposit_without_house_is_refused() {
    let mut g = CoinFlip::new();
    assert_eq!(
        g.deposit_house(key(AUTHORITY), key(AUTHORITY_ACCOUNT), 1),
        Err(ErrorCode::AccountNotFound)
    );
}

#[test]
fn withdraw_returns_funds_to_authority() {
    let mut g = setup(1000, 0);
    assert_eq!(
        g.withdraw_house(key(AUTHORITY), key(TREASURY), key(AUTHORITY_ACCOUNT), 300),
        Ok(())
    );
    assert_eq!(g.balance(key(TREASURY)), Some(700));
    assert_eq!(g.balance(key(AUTHORITY_ACCOUNT)), Some(4300));
}

#[test]
fn withdraw_by_non_authority_is_refused() {
    let mut g = setup(1000, 500);
    assert_eq!(
        g.withdraw_house(key(USER), key(TREASURY), key(USER_ACCOUNT), 300),
        Err(ErrorCode::Unauthorized)
    );
    assert_eq!(g.balance(key(TREASURY)), Some(1000));
    assert_eq!(g.balance(key(USER_ACCOUNT)), Some(500));
}

#[test]
fn withdraw_from_wrong_treasury_account_is_refused() {
    let mut g = setup(1000, 500);
    assert_eq!(
        g.withdraw_house(key(AUTHORITY), key(USER_ACCOUNT), key(AUTHORITY_ACCOUNT), 300),
        Err(ErrorCode::Unauthorized)
    );
    assert_eq!(g.balance(key(TREASURY)), Some(1000));
}

#[test]
fn withdraw_into_foreign_account_is_refused() {
    let mut g = setup(1000, 500);
    assert_eq!(
        g.withdraw_house(key(AUTHORITY), key(TREASURY), key(USER_ACCOUNT), 300),
        Err(ErrorCode::Unauthorized)
    );
    assert_eq!(g.balance(key(TREASURY)), Some(1000));
}

#[test]
fn withdraw_beyond_treasury_is_refused() {
    let mut g = setup(1000, 0);
    assert_eq!(
        g.withdraw_house(key(AUTHORITY), key(TREASURY), key(AUTHORITY_ACCOUNT), 1001),
        Err(ErrorCode::InsufficientFunds)
    );
    assert_eq!(g.balance(key(TREASURY)), Some(1000));
}

#[test]
fn place_bet_funds_escrow() {
    let mut g = setup(1000, 500);
    assert_eq!(
        g.place_bet(key(USER), key(USER_ACCOUNT), key(ESCROW), 5, 100, true),
        Ok(())
    );
    assert_eq!(g.balance(key(ESCROW)), Some(100));
    assert_eq!(g.balance(key(USER_ACCOUNT)), Some(400));
    assert_eq!(g.balance(key(TREASURY)), Some(1000));
    let b = g.bet(key(USER), 5).unwrap();
    assert_eq!(b.amount, 100);
    assert!(b.user_guess);
    assert!(!b.settled);
    assert_eq!(b.escrow_token_account, key(ESCROW));
    let h = g.house().unwrap();
    assert_eq!((h.win_count, h.loss_count), (0, 0));
}

#[test]
fn escrow_is_owned_by_the_wager_identity() {
    let mut g = setup(1000, 500);
    assert_eq!(
        g.place_bet(key(USER), key(USER_ACCOUNT), key(ESCROW), 5, 100, true),
        Ok(())
    );
    assert_ne!(bet_address(key(USER), 5), bet_address(key(USER), 6));
    assert_ne!(bet_address(key(USER), 5), Address::Wallet(key(USER)));
    assert_ne!(bet_address(key(USER), 5), house_address());
    // The treasury cannot pay into the escrow, which is nobody's wallet.
    assert_eq!(
        g.withdraw_house(key(AUTHORITY), key(TREASURY), key(ESCROW), 10),
        Err(ErrorCode::Unauthorized)
    );
    assert_eq!(g.balance(key(ESCROW)), Some(100));
    assert_eq!(g.balance(key(TREASURY)), Some(1000));
}

#[test]
fn zero_bet_is_refused() {
    let mut g = setup(1000, 500);
    assert_eq!(
        g.place_bet(key(USER), key(USER_ACCOUNT), key(ESCROW), 5, 0, true),
        Err(ErrorCode::InvalidBetAmount)
    );
    assert_eq!(g.bet(key(USER), 5), None);
    assert_eq!(g.balance(key(ESCROW)), None);
    assert_eq!(g.balance(key(USER_ACCOUNT)), Some(500));
}

#[test]
fn bet_above_treasury_is_refused() {
    let mut g = setup(50, 500);
    assert_eq!(
        g.place_bet(key(USER), key(USER_ACCOUNT), key(ESCROW), 5, 51, true),
        Err(ErrorCode::InsufficientHouseBalance)
    );
    assert_eq!(g.bet(key(USER), 5), None);
    assert_eq!(g.balance(key(ESCROW)), None);
    assert_eq!(
        g.place_bet(key(USER), key(USER_ACCOUNT), key(ESCROW), 5, 50, true),
        Ok(())
    );
}

#[test]
fn duplicate_wager_is_refused() {
    let mut g = setup(1000, 500);
    assert_eq!(
        g.place_bet(key(USER), key(USER_ACCOUNT), key(ESCROW), 5, 100, true),
        Ok(())
    );
    assert_eq!(
        g.place_bet(key(USER), key(USER_ACCOUNT), key(13), 5, 30, false),
        Err(ErrorCode::DuplicateWager)
    );
    let b = g.bet(key(USER), 5).unwrap();
    assert_eq!(b.amount, 100);
    assert!(b.user_guess);
    assert_eq!(g.balance(key(ESCROW)), Some(100));
    assert_eq!(g.balance(key(13)), None);
    assert_eq!(g.balance(key(USER_ACCOUNT)), Some(400));
}

#[test]
fn taken_escrow_account_is_refused() {
    let mut g = setup(1000, 500);
    assert_eq!(
        g.place_bet(key(USER), key(USER_ACCOUNT), key(TREASURY), 5, 100, true),
        Err(ErrorCode::DuplicateWager)
    );
    assert_eq!(g.bet(key(USER), 5), None);
}

#[test]
fn bet_beyond_user_funds_leaves_no_escrow() {
    let mut g = setup(1000, 50);
    assert_eq!(
        g.place_bet(key(USER), key(USER_ACCOUNT), key(ESCROW), 5, 100, true),
        Err(ErrorCode::InsufficientFunds)
    );
    assert_eq!(g.bet(key(USER), 5), None);
    assert_eq!(g.balance(key(ESCROW)), None);
    assert_eq!(g.balance(key(USER_ACCOUNT)), Some(50));
}

#[test]
fn bet_from_foreign_account_is_refused() {
    let mut g = setup(1000, 500);
    assert_eq!(
        g.place_bet(key(USER), key(AUTHORITY_ACCOUNT), key(ESCROW), 5, 100, true),
        Err(ErrorCode::Unauthorized)
    );
    assert_eq!(g.balance(key(ESCROW)), None);
}

#[test]
fn flip_adds_seeds_with_wraparound() {
    assert!(coin_result(u64::MAX, 1));
    assert!(!coin_result(u64::MAX, 0));
    assert!(coin_result(5, 5));
    assert!(!coin_result(5, 6));
    assert!(coin_result(0, 0));
    assert!(!coin_result(u64::MAX, u64::MAX - 1));
    assert!(coin_result(u64::MAX, u64::MAX));
}

#[test]
fn scenario_user_wins() {
    let mut g = setup(1000, 500);
    assert_eq!(
        g.place_bet(key(USER), key(USER_ACCOUNT), key(ESCROW), 5, 100, true),
        Ok(())
    );
    assert_eq!(g.settle_bet(key(USER), 5, key(USER_ACCOUNT), 5), Ok(()));
    let b = g.bet(key(USER), 5).unwrap();
    assert!(b.settled);
    assert!(b.result);
    assert_eq!(b.house_seed, 5);
    assert_eq!(g.balance(key(USER_ACCOUNT)), Some(600));
    assert_eq!(g.balance(key(TREASURY)), Some(900));
    assert_eq!(g.balance(key(ESCROW)), Some(0));
    let h = g.house().unwrap();
    assert_eq!(h.win_count, 0);
    assert_eq!(h.loss_count, 1);
}

#[test]
fn scenario_user_loses() {
    let mut g = setup(1000, 500);
    assert_eq!(
        g.place_bet(key(USER), key(USER_ACCOUNT), key(ESCROW), 5, 100, true),
        Ok(())
    );
    assert_eq!(g.settle_bet(key(USER), 5, key(USER_ACCOUNT), 6), Ok(()));
    let b = g.bet(key(USER), 5).unwrap();
    assert!(b.settled);
    assert!(!b.result);
    assert_eq!(b.house_seed, 6);
    assert_eq!(g.balance(key(USER_ACCOUNT)), Some(400));
    assert_eq!(g.balance(key(TREASURY)), Some(1100));
    assert_eq!(g.balance(key(ESCROW)), Some(0));
    let h = g.house().unwrap();
    assert_eq!(h.win_count, 1);
    assert_eq!(h.loss_count, 0);
}

#[test]
fn settle_wraparound_seed_is_even() {
    let mut g = setup(1000, 500);
    assert_eq!(
        g.place_bet(key(USER), key(USER_ACCOUNT), key(ESCROW), u64::MAX, 100, false),
        Ok(())
    );
    assert_eq!(g.settle_bet(key(USER), u64::MAX, key(USER_ACCOUNT), 1), Ok(()));
    let b = g.bet(key(USER), u64::MAX).unwrap();
    assert!(b.result);
    assert_eq!(g.balance(key(TREASURY)), Some(1100));
}

#[test]
fn second_settlement_is_refused() {
    let mut g = setup(1000, 500);
    assert_eq!(
        g.place_bet(key(USER), key(USER_ACCOUNT), key(ESCROW), 5, 100, true),
        Ok(())
    );
    assert_eq!(g.settle_bet(key(USER), 5, key(USER_ACCOUNT), 5), Ok(()));
    assert_eq!(
        g.settle_bet(key(USER), 5, key(USER_ACCOUNT), 6),
        Err(ErrorCode::BetAlreadySettled)
    );
    let b = g.bet(key(USER), 5).unwrap();
    assert!(b.settled);
    assert!(b.result);
    assert_eq!(b.house_seed, 5);
    assert_eq!(g.balance(key(USER_ACCOUNT)), Some(600));
    assert_eq!(g.balance(key(TREASURY)), Some(900));
    assert_eq!(g.house().unwrap().loss_count, 1);
}

#[test]
fn settle_unknown_bet_is_refused() {
    let mut g = setup(1000, 500);
    assert_eq!(
        g.settle_bet(key(USER), 5, key(USER_ACCOUNT), 5),
        Err(ErrorCode::AccountNotFound)
    );
}

#[test]
fn settle_payout_to_foreign_account_is_refused() {
    let mut g = setup(1000, 500);
    assert_eq!(
        g.place_bet(key(USER), key(USER_ACCOUNT), key(ESCROW), 5, 100, true),
        Ok(())
    );
    assert_eq!(
        g.settle_bet(key(USER), 5, key(AUTHORITY_ACCOUNT), 5),
        Err(ErrorCode::Unauthorized)
    );
    assert!(!g.bet(key(USER), 5).unwrap().settled);
}

#[test]
fn failed_payout_leg_rolls_back_settlement() {
    let mut g = setup(1000, 500);
    assert_eq!(
        g.place_bet(key(USER), key(USER_ACCOUNT), key(ESCROW), 5, 100, true),
        Ok(())
    );
    // The treasury is drained below the stake after the wager was accepted.
    assert_eq!(
        g.withdraw_house(key(AUTHORITY), key(TREASURY), key(AUTHORITY_ACCOUNT), 950),
        Ok(())
    );
    assert_eq!(
        g.settle_bet(key(USER), 5, key(USER_ACCOUNT), 5),
        Err(ErrorCode::InsufficientFunds)
    );
    let b = g.bet(key(USER), 5).unwrap();
    assert!(!b.settled);
    assert_eq!(g.balance(key(ESCROW)), Some(100));
    assert_eq!(g.balance(key(USER_ACCOUNT)), Some(400));
    assert_eq!(g.balance(key(TREASURY)), Some(50));
    assert_eq!(g.house().unwrap().loss_count, 0);
    // Once the treasury is topped up, the same settlement goes through.
    assert_eq!(g.deposit_house(key(AUTHORITY), key(AUTHORITY_ACCOUNT), 100), Ok(()));
    assert_eq!(g.settle_bet(key(USER), 5, key(USER_ACCOUNT), 5), Ok(()));
    assert_eq!(g.balance(key(USER_ACCOUNT)), Some(600));
    assert_eq!(g.balance(key(TREASURY)), Some(50));
}

#[test]
fn open_account_twice_is_refused() {
    let mut g = CoinFlip::new();
    assert_eq!(g.open_token_account(key(1), house_address(), 5), Ok(()));
    assert_eq!(
        g.open_token_account(key(1), Address::Wallet(key(2)), 9),
        Err(ErrorCode::AlreadyExists)
    );
    assert_eq!(g.balance(key(1)), Some(5));
}
