//! What holds of the operations together, proved over their steps.
use vstd::prelude::*;
use crate::coin_flip::{
    flip, new_bet, new_escrow, settle_legs, step_deposit_house, step_initialize_house,
    step_place_bet, step_settle_bet, step_withdraw_house, CoinFlipView,
};
use crate::ids::{Address, Pubkey};
use crate::ledger::{step_transfer, transferred};
use crate::state::{Bet, ErrorCode};

verus! {

/// One operation with its arguments.
pub enum Op {
    InitializeHouse { authority: Pubkey, house_token_account: Pubkey, bump: u8 },
    DepositHouse { authority: Pubkey, authority_token_account: Pubkey, amount: u64 },
    WithdrawHouse {
        authority: Pubkey,
        house_token_account: Pubkey,
        authority_token_account: Pubkey,
        amount: u64,
    },
    PlaceBet {
        user: Pubkey,
        user_token_account: Pubkey,
        escrow_token_account: Pubkey,
        user_seed: u64,
        bet_amount: u64,
        user_guess: bool,
    },
    SettleBet { user: Pubkey, user_seed: u64, user_token_account: Pubkey, house_seed: u64 },
}

/// The step that an operation takes.
pub open spec fn step(s: CoinFlipView, op: Op) -> (CoinFlipView, Result<(), ErrorCode>) {
    match op {
        Op::InitializeHouse { authority, house_token_account, bump } => step_initialize_house(
            s,
            authority,
            house_token_account,
            bump,
        ),
        Op::DepositHouse { authority, authority_token_account, amount } => step_deposit_house(
            s,
            authority,
            authority_token_account,
            amount,
        ),
        Op::WithdrawHouse {
            authority,
            house_token_account,
            authority_token_account,
            amount,
        } => step_withdraw_house(s, authority, house_token_account, authority_token_account, amount),
        Op::PlaceBet {
            user,
            user_token_account,
            escrow_token_account,
            user_seed,
            bet_amount,
            user_guess,
        } => step_place_bet(
            s,
            user,
            user_token_account,
            escrow_token_account,
            user_seed,
            bet_amount,
            user_guess,
        ),
        Op::SettleBet { user, user_seed, user_token_account, house_seed } => step_settle_bet(
            s,
            user,
            user_seed,
            user_token_account,
            house_seed,
        ),
    }
}

/// A wager of a positive amount, placed against a treasury that covers it by
/// a user who owns and holds the stake, is accepted: its escrow then holds
/// exactly the stake, the user's account holds the stake less, the wager is
/// unsettled, and the treasury is untouched.
pub proof fn lemma_place_bet_funds_escrow(
    s: CoinFlipView,
    user: Pubkey,
    user_token_account: Pubkey,
    escrow_token_account: Pubkey,
    user_seed: u64,
    bet_amount: u64,
    user_guess: bool,
)
    requires
        bet_amount > 0,
        s.house is Some,
        s.accounts.contains_key(s.house->0.house_token_account),
        s.accounts[s.house->0.house_token_account].amount >= bet_amount,
        !s.bets.contains_key((user, user_seed)),
        !s.accounts.contains_key(escrow_token_account),
        s.accounts.contains_key(user_token_account),
        s.accounts[user_token_account].authority == Address::Wallet(user),
        s.accounts[user_token_account].amount >= bet_amount,
    ensures
        ({
            let (t, r) = step_place_bet(
                s,
                user,
                user_token_account,
                escrow_token_account,
                user_seed,
                bet_amount,
                user_guess,
            );
            &&& r is Ok
            &&& t.accounts[escrow_token_account].amount == bet_amount
            &&& t.accounts[user_token_account].amount == s.accounts[user_token_account].amount
                - bet_amount
            &&& t.bets[(user, user_seed)].settled == false
            &&& t.bets[(user, user_seed)].amount == bet_amount
            &&& t.house == s.house
        }),
{
}

/// A wager of zero is refused with `InvalidBetAmount` and changes nothing.
pub proof fn lemma_zero_bet_refused(
    s: CoinFlipView,
    user: Pubkey,
    user_token_account: Pubkey,
    escrow_token_account: Pubkey,
    user_seed: u64,
    user_guess: bool,
)
    ensures
        step_place_bet(s, user, user_token_account, escrow_token_account, user_seed, 0, user_guess)
            == (s, Err::<(), ErrorCode>(ErrorCode::InvalidBetAmount)),
{
}

/// Once a wager of `user` with `user_seed` is placed, a second placement with
/// the same user and seed is refused and changes nothing; where its amount is
/// positive and covered by the treasury, the refusal is `DuplicateWager`.
pub proof fn lemma_duplicate_wager_refused(
    s: CoinFlipView,
    user: Pubkey,
    user_seed: u64,
    user_token_account: Pubkey,
    escrow_token_account: Pubkey,
    bet_amount: u64,
    user_guess: bool,
    user_token_account2: Pubkey,
    escrow_token_account2: Pubkey,
    bet_amount2: u64,
    user_guess2: bool,
)
    requires
        step_place_bet(
            s,
            user,
            user_token_account,
            escrow_token_account,
            user_seed,
            bet_amount,
            user_guess,
        ).1 is Ok,
    ensures
        ({
            let t = step_place_bet(
                s,
                user,
                user_token_account,
                escrow_token_account,
                user_seed,
                bet_amount,
                user_guess,
            ).0;
            let (u, r) = step_place_bet(
                t,
                user,
                user_token_account2,
                escrow_token_account2,
                user_seed,
                bet_amount2,
                user_guess2,
            );
            &&& r is Err
            &&& u == t
            &&& (bet_amount2 > 0 && t.accounts[t.house->0.house_token_account].amount
                >= bet_amount2) ==> r == Err::<(), ErrorCode>(ErrorCode::DuplicateWager)
        }),
{
}

/// A settlement records the house seed and the flip of the two seeds, marks
/// the wager settled, and any further settlement of it is refused with
/// `BetAlreadySettled` and changes nothing.
pub proof fn lemma_settle_once(
    s: CoinFlipView,
    user: Pubkey,
    user_seed: u64,
    user_token_account: Pubkey,
    house_seed: u64,
    user_token_account2: Pubkey,
    house_seed2: u64,
)
    requires
        step_settle_bet(s, user, user_seed, user_token_account, house_seed).1 is Ok,
    ensures
        ({
            let t = step_settle_bet(s, user, user_seed, user_token_account, house_seed).0;
            &&& t.bets[(user, user_seed)].settled
            &&& t.bets[(user, user_seed)].house_seed == house_seed
            &&& t.bets[(user, user_seed)].result == flip(s.bets[(user, user_seed)].user_seed, house_seed)
            &&& step_settle_bet(t, user, user_seed, user_token_account2, house_seed2) == (t, Err::<
                (),
                ErrorCode,
            >(ErrorCode::BetAlreadySettled))
        }),
{
}

/// A settled wager stays as it is under every operation.
pub proof fn lemma_settled_bet_stays(s: CoinFlipView, key: (Pubkey, u64), op: Op)
    requires
        s.bets.contains_key(key),
        s.bets[key].settled,
    ensures
        step(s, op).0.bets.contains_key(key),
        step(s, op).0.bets[key] == s.bets[key],
{
}

/// In a state that holds the custody invariant, a settlement that the user
/// wins empties the escrow, which held the stake, into the user's account,
/// which also receives the stake from the treasury; the treasury falls by the
/// stake, and one more loss is counted for the house.
pub proof fn lemma_settle_win_pays_user(
    s: CoinFlipView,
    user: Pubkey,
    user_seed: u64,
    user_token_account: Pubkey,
    house_seed: u64,
)
    requires
        step_settle_bet(s, user, user_seed, user_token_account, house_seed).1 is Ok,
        escrow_held(s),
        flip(s.bets[(user, user_seed)].user_seed, house_seed) == s.bets[(user, user_seed)].user_guess,
    ensures
        ({
            let t = step_settle_bet(s, user, user_seed, user_token_account, house_seed).0;
            let bet = s.bets[(user, user_seed)];
            let h = s.house->0;
            &&& t.accounts[bet.escrow_token_account].amount == 0
            &&& t.accounts[user_token_account].amount == s.accounts[user_token_account].amount
                + 2 * bet.amount
            &&& t.accounts[h.house_token_account].amount == s.accounts[h.house_token_account].amount
                - bet.amount
            &&& t.house->0.loss_count == h.loss_count + 1
            &&& t.house->0.win_count == h.win_count
        }),
{
    assert(s.bets.contains_key((user, user_seed)));
    let bet = s.bets[(user, user_seed)];
    let h = s.house->0;
    assert(s.accounts[bet.escrow_token_account].authority == (Address::Bet {
        user: bet.user,
        user_seed: bet.user_seed,
    }));
    let e = bet.escrow_token_account;
    let u = user_token_account;
    let hk = h.house_token_account;
    let signer = Address::Bet { user: bet.user, user_seed: bet.user_seed };
    let (m1, r1) = step_transfer(s.accounts, e, u, signer, bet.amount);
    assert(r1 is Ok);
    assert(s.accounts[u].authority == Address::Wallet(bet.user));
    assert(e != u);
    assert(m1 == transferred(s.accounts, e, u, bet.amount));
    assert(m1[e].authority == signer);
    assert(m1[u].authority == Address::Wallet(bet.user));
    let (m2, r2) = step_transfer(m1, hk, u, Address::House, bet.amount);
    assert(r2 is Ok);
    assert(m1[hk].authority == Address::House);
    assert(hk != e && hk != u);
    assert(settle_legs(s.accounts, bet, h, u, true) == (m2, r2));
    let t = step_settle_bet(s, user, user_seed, user_token_account, house_seed).0;
}

/// In a state that holds the custody invariant, a settlement that the user
/// loses empties the escrow, which held the stake, into the treasury, whose
/// account rises by the stake, and counts one more win for the house.
pub proof fn lemma_settle_loss_pays_house(
    s: CoinFlipView,
    user: Pubkey,
    user_seed: u64,
    user_token_account: Pubkey,
    house_seed: u64,
)
    requires
        step_settle_bet(s, user, user_seed, user_token_account, house_seed).1 is Ok,
        escrow_held(s),
        flip(s.bets[(user, user_seed)].user_seed, house_seed) != s.bets[(user, user_seed)].user_guess,
    ensures
        ({
            let t = step_settle_bet(s, user, user_seed, user_token_account, house_seed).0;
            let bet = s.bets[(user, user_seed)];
            let h = s.house->0;
            &&& t.accounts[bet.escrow_token_account].amount == 0
            &&& t.accounts[h.house_token_account].amount == s.accounts[h.house_token_account].amount
                + bet.amount
            &&& t.house->0.win_count == h.win_count + 1
            &&& t.house->0.loss_count == h.loss_count
        }),
{
    assert(s.bets.contains_key((user, user_seed)));
}

/// A withdrawal by anyone but the treasury's authority is refused with
/// `Unauthorized` and changes nothing, the treasury's funds included.
pub proof fn lemma_withdraw_needs_authority(
    s: CoinFlipView,
    caller: Pubkey,
    house_token_account: Pubkey,
    authority_token_account: Pubkey,
    amount: u64,
)
    requires
        s.house is Some,
        caller != s.house->0.authority,
    ensures
        step_withdraw_house(s, caller, house_token_account, authority_token_account, amount) == (s, Err::<
            (),
            ErrorCode,
        >(ErrorCode::Unauthorized)),
{
}

/// From a state that holds the custody invariant, a wager placed and then
/// settled from the same user account, which is not the treasury's own: the
/// escrow ends empty; if the user won, the user's account ends the stake above
/// where it began and the treasury the stake below, with one more loss counted
/// for the house; otherwise the user's account ends the stake below and the
/// treasury the stake above, with one more win counted.
pub proof fn lemma_wager_nets_stake(
    s: CoinFlipView,
    user: Pubkey,
    user_token_account: Pubkey,
    escrow_token_account: Pubkey,
    user_seed: u64,
    bet_amount: u64,
    user_guess: bool,
    house_seed: u64,
)
    requires
        step_place_bet(
            s,
            user,
            user_token_account,
            escrow_token_account,
            user_seed,
            bet_amount,
            user_guess,
        ).1 is Ok,
        escrow_held(s),
        user_token_account != s.house->0.house_token_account,
        step_settle_bet(
            step_place_bet(
                s,
                user,
                user_token_account,
                escrow_token_account,
                user_seed,
                bet_amount,
                user_guess,
            ).0,
            user,
            user_seed,
            user_token_account,
            house_seed,
        ).1 is Ok,
    ensures
        ({
            let t = step_place_bet(
                s,
                user,
                user_token_account,
                escrow_token_account,
                user_seed,
                bet_amount,
                user_guess,
            ).0;
            let v = step_settle_bet(t, user, user_seed, user_token_account, house_seed).0;
            let h = s.house->0;
            let hk = h.house_token_account;
            &&& v.accounts[escrow_token_account].amount == 0
            &&& flip(user_seed, house_seed) == user_guess ==> {
                &&& v.accounts[user_token_account].amount == s.accounts[user_token_account].amount
                    + bet_amount
                &&& v.accounts[hk].amount == s.accounts[hk].amount - bet_amount
                &&& v.house->0.loss_count == h.loss_count + 1
                &&& v.house->0.win_count == h.win_count
            }
            &&& flip(user_seed, house_seed) != user_guess ==> {
                &&& v.accounts[user_token_account].amount == s.accounts[user_token_account].amount
                    - bet_amount
                &&& v.accounts[hk].amount == s.accounts[hk].amount + bet_amount
                &&& v.house->0.win_count == h.win_count + 1
                &&& v.house->0.loss_count == h.loss_count
            }
        }),
{
    let t = step_place_bet(
        s,
        user,
        user_token_account,
        escrow_token_account,
        user_seed,
        bet_amount,
        user_guess,
    ).0;
    let key = (user, user_seed);
    let e = escrow_token_account;
    let u = user_token_account;
    let hk = s.house->0.house_token_account;
    let m1 = s.accounts.insert(e, new_escrow(user, e, user_seed));
    assert(step_transfer(m1, u, e, Address::Wallet(user), bet_amount).1 is Ok);
    assert(u != e);
    assert(t.accounts[e].amount == bet_amount);
    assert(t.accounts[u].amount == s.accounts[u].amount - bet_amount);
    assert(hk != e);
    assert(t.accounts[hk] == s.accounts[hk]);
    assert(t.bets[key] == new_bet(user, e, user_seed, bet_amount, user_guess));
    lemma_escrow_held_kept(
        s,
        Op::PlaceBet {
            user,
            user_token_account,
            escrow_token_account,
            user_seed,
            bet_amount,
            user_guess,
        },
    );
    if flip(user_seed, house_seed) == user_guess {
        lemma_settle_win_pays_user(t, user, user_seed, u, house_seed);
    } else {
        lemma_settle_loss_pays_house(t, user, user_seed, u, house_seed);
    }
}

/// The custody invariant: each wager is filed under its own user and seed,
/// the treasury exists, and the wager's escrow is an account of the wager's
/// derived identity, apart from the treasury's account, holding the stake
/// while the wager is unsettled and nothing once it is settled.
pub open spec fn escrow_held(s: CoinFlipView) -> bool {
    forall|k: (Pubkey, u64)| #[trigger] s.bets.contains_key(k) ==> {
        let b = s.bets[k];
        let e = b.escrow_token_account;
        &&& s.house is Some
        &&& b.user == k.0
        &&& b.user_seed == k.1
        &&& s.accounts.contains_key(e)
        &&& s.accounts[e].authority == (Address::Bet { user: k.0, user_seed: k.1 })
        &&& e != s.house->0.house_token_account
        &&& s.accounts[e].amount == if b.settled { 0 } else { b.amount }
    }
}

/// A state with no wagers holds the custody invariant.
pub proof fn lemma_escrow_held_initially(s: CoinFlipView)
    requires
        s.bets == Map::<(Pubkey, u64), Bet>::empty(),
    ensures
        escrow_held(s),
{
}

/// Every operation keeps the custody invariant.
pub proof fn lemma_escrow_held_kept(s: CoinFlipView, op: Op)
    requires
        escrow_held(s),
    ensures
        escrow_held(step(s, op).0),
{
    let t = step(s, op).0;
    match op {
        Op::InitializeHouse { authority, house_token_account, bump } => {},
        Op::DepositHouse { authority, authority_token_account, amount } => {
            assert forall|k: (Pubkey, u64)| #[trigger] t.bets.contains_key(k) implies t.accounts[s.bets[k].escrow_token_account] == s.accounts[s.bets[k].escrow_token_account] by {
                let e = s.bets[k].escrow_token_account;
                if step(s, op).1 is Ok {
                    assert(e != authority_token_account);
                }
            }
        },
        Op::WithdrawHouse { authority, house_token_account, authority_token_account, amount } => {
            assert forall|k: (Pubkey, u64)| #[trigger] t.bets.contains_key(k) implies t.accounts[s.bets[k].escrow_token_account] == s.accounts[s.bets[k].escrow_token_account] by {
                let e = s.bets[k].escrow_token_account;
                if step(s, op).1 is Ok {
                    assert(e != authority_token_account);
                }
            }
        },
        Op::PlaceBet {
            user,
            user_token_account,
            escrow_token_account,
            user_seed,
            bet_amount,
            user_guess,
        } => {
            if step(s, op).1 is Ok {
                let m1 = s.accounts.insert(
                    escrow_token_account,
                    new_escrow(user, escrow_token_account, user_seed),
                );
                assert(step_transfer(m1, user_token_account, escrow_token_account, Address::Wallet(user), bet_amount).1 is Ok);
                assert(user_token_account != escrow_token_account);
                assert forall|k: (Pubkey, u64)| #[trigger] t.bets.contains_key(k) implies {
                    let b = t.bets[k];
                    let e = b.escrow_token_account;
                    &&& t.house is Some
                    &&& b.user == k.0
                    &&& b.user_seed == k.1
                    &&& t.accounts.contains_key(e)
                    &&& t.accounts[e].authority == (Address::Bet { user: k.0, user_seed: k.1 })
                    &&& e != t.house->0.house_token_account
                    &&& t.accounts[e].amount == if b.settled { 0 } else { b.amount }
                } by {
                    if k != (user, user_seed) {
                        let e = s.bets[k].escrow_token_account;
                        assert(s.accounts.contains_key(e));
                        assert(e != escrow_token_account);
                        assert(e != user_token_account);
                    }
                }
            }
        },
        Op::SettleBet { user, user_seed, user_token_account, house_seed } => {
            if step(s, op).1 is Ok {
                let key = (user, user_seed);
                let bet = s.bets[key];
                let h = s.house->0;
                let e0 = bet.escrow_token_account;
                let hk = h.house_token_account;
                let won = flip(bet.user_seed, house_seed) == bet.user_guess;
                assert(s.bets.contains_key(key));
                if won {
                    lemma_settle_win_pays_user(s, user, user_seed, user_token_account, house_seed);
                    let signer = Address::Bet { user: bet.user, user_seed: bet.user_seed };
                    assert(step_transfer(s.accounts, e0, user_token_account, signer, bet.amount).1 is Ok);
                    assert(s.accounts[user_token_account].authority == Address::Wallet(bet.user));
                } else {
                    lemma_settle_loss_pays_house(s, user, user_seed, user_token_account, house_seed);
                }
                assert forall|k: (Pubkey, u64)| #[trigger] t.bets.contains_key(k) implies {
                    let b = t.bets[k];
                    let e = b.escrow_token_account;
                    &&& t.house is Some
                    &&& b.user == k.0
                    &&& b.user_seed == k.1
                    &&& t.accounts.contains_key(e)
                    &&& t.accounts[e].authority == (Address::Bet { user: k.0, user_seed: k.1 })
                    &&& e != t.house->0.house_token_account
                    &&& t.accounts[e].amount == if b.settled { 0 } else { b.amount }
                } by {
                    if k != key {
                        let e = s.bets[k].escrow_token_account;
                        assert(s.accounts[e].authority != s.accounts[e0].authority);
                        assert(e != e0);
                        if won {
                            assert(e != user_token_account);
                        }
                        assert(t.accounts[e] == s.accounts[e]);
                    }
                }
            }
        },
    }
}

} // verus!
