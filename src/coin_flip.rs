//! The wager engine: treasury set-up, deposits and withdrawals, placement of
//! wagers into escrow, and their one-shot settlement. Each operation is stated
//! as a step on `CoinFlipView` and commits whole or not at all.
use vstd::prelude::*;
use crate::laws::{escrow_held, lemma_escrow_held_initially, lemma_escrow_held_kept, Op};
use crate::ids::{bet_address, house_address, Address, Pubkey};
use crate::ledger::{step_transfer, Ledger, TokenAccount};
use crate::state::{Bet, ErrorCode, House};
use crate::table::{lemma_table_absent, lemma_table_at, lemma_table_empty, lemma_table_push,
    lemma_table_update, table, unique_keys};

verus! {

/// The whole state as values: the treasury if it was set up, the wagers by
/// `(user, user_seed)`, and the token accounts by key.
pub struct CoinFlipView {
    pub house: Option<House>,
    pub bets: Map<(Pubkey, u64), Bet>,
    pub accounts: Map<Pubkey, TokenAccount>,
}

pub open spec fn bet_key() -> spec_fn(Bet) -> (Pubkey, u64) {
    |b: Bet| (b.user, b.user_seed)
}

/// The outcome of a flip: the seeds are added modulo 2^64, and an even sum
/// gives `true`.
pub open spec fn flip(user_seed: u64, house_seed: u64) -> bool {
    ((user_seed as int + house_seed as int) % 0x1_0000_0000_0000_0000) % 2 == 0
}

pub fn coin_result(user_seed: u64, house_seed: u64) -> (r: bool)
    ensures
        r == flip(user_seed, house_seed),
{
    user_seed.wrapping_add(house_seed) % 2 == 0
}

pub open spec fn with_accounts(s: CoinFlipView, m: Map<Pubkey, TokenAccount>) -> CoinFlipView {
    CoinFlipView { house: s.house, bets: s.bets, accounts: m }
}

pub open spec fn step_initialize_house(
    s: CoinFlipView,
    authority: Pubkey,
    house_token_account: Pubkey,
    bump: u8,
) -> (CoinFlipView, Result<(), ErrorCode>) {
    if s.house is Some {
        (s, Err(ErrorCode::AlreadyExists))
    } else {
        let h = House { bump, authority, house_token_account, win_count: 0, loss_count: 0 };
        (CoinFlipView { house: Some(h), bets: s.bets, accounts: s.accounts }, Ok(()))
    }
}

pub open spec fn step_deposit_house(
    s: CoinFlipView,
    authority: Pubkey,
    authority_token_account: Pubkey,
    amount: u64,
) -> (CoinFlipView, Result<(), ErrorCode>) {
    match s.house {
        None => (s, Err(ErrorCode::AccountNotFound)),
        Some(h) => if authority != h.authority {
            (s, Err(ErrorCode::Unauthorized))
        } else {
            let (m, r) = step_transfer(
                s.accounts,
                authority_token_account,
                h.house_token_account,
                Address::Wallet(authority),
                amount,
            );
            (with_accounts(s, m), r)
        },
    }
}

pub open spec fn step_withdraw_house(
    s: CoinFlipView,
    authority: Pubkey,
    house_token_account: Pubkey,
    authority_token_account: Pubkey,
    amount: u64,
) -> (CoinFlipView, Result<(), ErrorCode>) {
    match s.house {
        None => (s, Err(ErrorCode::AccountNotFound)),
        Some(h) => if authority != h.authority || house_token_account != h.house_token_account || (
        s.accounts.contains_key(authority_token_account)
            && s.accounts[authority_token_account].authority != Address::Wallet(authority)) {
            (s, Err(ErrorCode::Unauthorized))
        } else {
            let (m, r) = step_transfer(
                s.accounts,
                h.house_token_account,
                authority_token_account,
                Address::House,
                amount,
            );
            (with_accounts(s, m), r)
        },
    }
}

/// The record of a wager just placed.
pub open spec fn new_bet(
    user: Pubkey,
    escrow_token_account: Pubkey,
    user_seed: u64,
    bet_amount: u64,
    user_guess: bool,
) -> Bet {
    Bet {
        user,
        amount: bet_amount,
        user_guess,
        user_seed,
        house_seed: 0,
        result: false,
        settled: false,
        escrow_token_account,
    }
}

/// The escrow account of a wager just placed, before it is funded.
pub open spec fn new_escrow(user: Pubkey, escrow_token_account: Pubkey, user_seed: u64) -> TokenAccount {
    TokenAccount {
        key: escrow_token_account,
        authority: Address::Bet { user, user_seed },
        amount: 0,
    }
}

pub open spec fn step_place_bet(
    s: CoinFlipView,
    user: Pubkey,
    user_token_account: Pubkey,
    escrow_token_account: Pubkey,
    user_seed: u64,
    bet_amount: u64,
    user_guess: bool,
) -> (CoinFlipView, Result<(), ErrorCode>) {
    if bet_amount == 0 {
        (s, Err(ErrorCode::InvalidBetAmount))
    } else {
        match s.house {
            None => (s, Err(ErrorCode::AccountNotFound)),
            Some(h) => if !s.accounts.contains_key(h.house_token_account) {
                (s, Err(ErrorCode::AccountNotFound))
            } else if s.accounts[h.house_token_account].amount < bet_amount {
                (s, Err(ErrorCode::InsufficientHouseBalance))
            } else if s.bets.contains_key((user, user_seed)) || s.accounts.contains_key(
                escrow_token_account,
            ) {
                (s, Err(ErrorCode::DuplicateWager))
            } else {
                let m1 = s.accounts.insert(
                    escrow_token_account,
                    new_escrow(user, escrow_token_account, user_seed),
                );
                let (m2, r) = step_transfer(
                    m1,
                    user_token_account,
                    escrow_token_account,
                    Address::Wallet(user),
                    bet_amount,
                );
                match r {
                    Err(e) => (s, Err(e)),
                    Ok(_) => (
                        CoinFlipView {
                            house: s.house,
                            bets: s.bets.insert(
                                (user, user_seed),
                                new_bet(user, escrow_token_account, user_seed, bet_amount, user_guess),
                            ),
                            accounts: m2,
                        },
                        Ok(()),
                    ),
                }
            },
        }
    }
}

/// The fund legs of a settlement: on a win the escrow returns the stake and
/// the treasury pays as much again; on a loss the escrow pays the treasury.
/// If a leg is refused, the accounts are as they were.
pub open spec fn settle_legs(
    m: Map<Pubkey, TokenAccount>,
    bet: Bet,
    h: House,
    user_token_account: Pubkey,
    won: bool,
) -> (Map<Pubkey, TokenAccount>, Result<(), ErrorCode>) {
    let signer = Address::Bet { user: bet.user, user_seed: bet.user_seed };
    if won {
        let (m1, r1) = step_transfer(m, bet.escrow_token_account, user_token_account, signer, bet.amount);
        if r1 is Err {
            (m, r1)
        } else {
            let (m2, r2) = step_transfer(
                m1,
                h.house_token_account,
                user_token_account,
                Address::House,
                bet.amount,
            );
            if r2 is Err {
                (m, r2)
            } else {
                (m2, r2)
            }
        }
    } else {
        step_transfer(m, bet.escrow_token_account, h.house_token_account, signer, bet.amount)
    }
}

/// The record of a wager once settled with `house_seed`.
pub open spec fn settled_bet(bet: Bet, house_seed: u64) -> Bet {
    Bet {
        user: bet.user,
        amount: bet.amount,
        user_guess: bet.user_guess,
        user_seed: bet.user_seed,
        house_seed,
        result: flip(bet.user_seed, house_seed),
        settled: true,
        escrow_token_account: bet.escrow_token_account,
    }
}

/// The treasury once a settlement is counted.
pub open spec fn counted_house(h: House, won: bool) -> House {
    House {
        bump: h.bump,
        authority: h.authority,
        house_token_account: h.house_token_account,
        win_count: if won { h.win_count } else { (h.win_count + 1) as u64 },
        loss_count: if won { (h.loss_count + 1) as u64 } else { h.loss_count },
    }
}

pub open spec fn step_settle_bet(
    s: CoinFlipView,
    user: Pubkey,
    user_seed: u64,
    user_token_account: Pubkey,
    house_seed: u64,
) -> (CoinFlipView, Result<(), ErrorCode>) {
    match s.house {
        None => (s, Err(ErrorCode::AccountNotFound)),
        Some(h) => if !s.bets.contains_key((user, user_seed)) {
            (s, Err(ErrorCode::AccountNotFound))
        } else {
            let bet = s.bets[(user, user_seed)];
            let won = flip(bet.user_seed, house_seed) == bet.user_guess;
            if bet.settled {
                (s, Err(ErrorCode::BetAlreadySettled))
            } else if (won && h.loss_count == u64::MAX) || (!won && h.win_count == u64::MAX) {
                (s, Err(ErrorCode::ArithmeticOverflow))
            } else if s.accounts.contains_key(user_token_account)
                && s.accounts[user_token_account].authority != Address::Wallet(bet.user) {
                (s, Err(ErrorCode::Unauthorized))
            } else {
                let (m, r) = settle_legs(s.accounts, bet, h, user_token_account, won);
                match r {
                    Err(e) => (s, Err(e)),
                    Ok(_) => (
                        CoinFlipView {
                            house: Some(counted_house(h, won)),
                            bets: s.bets.insert((user, user_seed), settled_bet(bet, house_seed)),
                            accounts: m,
                        },
                        Ok(()),
                    ),
                }
            }
        },
    }
}

/// The engine's state: the treasury, the wager records and the ledger.
pub struct CoinFlip {
    house: Option<House>,
    bets: Vec<Bet>,
    ledger: Ledger,
}

impl View for CoinFlip {
    type V = CoinFlipView;

    closed spec fn view(&self) -> CoinFlipView {
        CoinFlipView { house: self.house, bets: table(self.bets@, bet_key()), accounts: self.ledger@ }
    }
}

impl CoinFlip {
    pub closed spec fn wf(&self) -> bool {
        &&& unique_keys(self.bets@, bet_key())
        &&& self.ledger.wf()
        &&& escrow_held(self@)
    }

    /// An engine with no treasury, no wagers and no accounts.
    pub fn new() -> (r: CoinFlip)
        ensures
            r.wf(),
            r@.house is None,
            r@.bets == Map::<(Pubkey, u64), Bet>::empty(),
            r@.accounts == Map::<Pubkey, TokenAccount>::empty(),
    {
        proof {
            lemma_table_empty(bet_key());
        }
        let r = CoinFlip { house: None, bets: Vec::new(), ledger: Ledger::new() };
        proof {
            lemma_escrow_held_initially(r@);
        }
        r
    }

    /// Creates the token account `key` under `authority` holding `amount`;
    /// refused with `AlreadyExists` where the key is taken.
    pub fn open_token_account(&mut self, key: Pubkey, authority: Address, amount: u64) -> (r:
        Result<(), ErrorCode>)
        requires
            old(self).wf(),
        ensures
            final(self).wf(),
            final(self)@.house == old(self)@.house,
            final(self)@.bets == old(self)@.bets,
            old(self)@.accounts.contains_key(key) ==> r == Err::<(), ErrorCode>(
                ErrorCode::AlreadyExists,
            ) && final(self)@.accounts == old(self)@.accounts,
            !old(self)@.accounts.contains_key(key) ==> r is Ok && final(self)@.accounts == old(
                self,
            )@.accounts.insert(key, TokenAccount { key, authority, amount }),
    {
        let r = self.ledger.open_account(key, authority, amount);
        assert(forall|k: (Pubkey, u64)| #[trigger] self@.bets.contains_key(k) ==> old(self)@.accounts.contains_key(self@.bets[k].escrow_token_account));
        r
    }

    /// The treasury, once set up.
    pub fn house(&self) -> (r: Option<House>)
        ensures
            r == self@.house,
    {
        self.house
    }

    /// The funds of the token account `key`, if it exists.
    pub fn balance(&self, key: Pubkey) -> (r: Option<u64>)
        requires
            self.wf(),
        ensures
            r == (if self@.accounts.contains_key(key) {
                Some(self@.accounts[key].amount)
            } else {
                None::<u64>
            }),
    {
        self.ledger.balance(key)
    }

    fn find_bet(&self, user: Pubkey, user_seed: u64) -> (r: Option<usize>)
        requires
            self.wf(),
        ensures
            match r {
                Some(i) => i < self.bets@.len() && self@.bets.contains_key((user, user_seed))
                    && self@.bets[(user, user_seed)] == self.bets@[i as int],
                None => !self@.bets.contains_key((user, user_seed)),
            },
    {
        let mut i: usize = 0;
        while i < self.bets.len()
            invariant
                self.wf(),
                i <= self.bets@.len(),
                forall|j: int| 0 <= j < i ==> bet_key()(self.bets@[j]) != (user, user_seed),
            decreases self.bets@.len() - i,
        {
            let b = self.bets[i];
            if b.user == user && b.user_seed == user_seed {
                proof {
                    lemma_table_at(self.bets@, bet_key(), i as int);
                }
                return Some(i);
            }
            i = i + 1;
        }
        proof {
            lemma_table_absent(self.bets@, bet_key(), (user, user_seed));
        }
        None
    }

    /// The wager of `user` with seed `user_seed`, if it was placed.
    pub fn bet(&self, user: Pubkey, user_seed: u64) -> (r: Option<Bet>)
        requires
            self.wf(),
        ensures
            r == (if self@.bets.contains_key((user, user_seed)) {
                Some(self@.bets[(user, user_seed)])
            } else {
                None::<Bet>
            }),
    {
        match self.find_bet(user, user_seed) {
            Some(i) => Some(self.bets[i]),
            None => None,
        }
    }
}

impl CoinFlip {
    /// Sets up the treasury under `authority`, its pooled funds held in
    /// `house_token_account`; refused with `AlreadyExists` the second time.
    pub fn initialize_house(&mut self, authority: Pubkey, house_token_account: Pubkey, bump: u8) -> (r:
        Result<(), ErrorCode>)
        requires
            old(self).wf(),
        ensures
            final(self).wf(),
            (final(self)@, r) == step_initialize_house(old(self)@, authority, house_token_account, bump),
    {
        proof {
            lemma_escrow_held_kept(self@, Op::InitializeHouse { authority, house_token_account, bump });
        }
        if self.house.is_some() {
            return Err(ErrorCode::AlreadyExists);
        }
        self.house = Some(House { bump, authority, house_token_account, win_count: 0, loss_count: 0 });
        Ok(())
    }

    /// Moves `amount` from the authority's own account into the treasury.
    pub fn deposit_house(&mut self, authority: Pubkey, authority_token_account: Pubkey, amount: u64) -> (r:
        Result<(), ErrorCode>)
        requires
            old(self).wf(),
        ensures
            final(self).wf(),
            (final(self)@, r) == step_deposit_house(
                old(self)@,
                authority,
                authority_token_account,
                amount,
            ),
    {
        proof {
            lemma_escrow_held_kept(self@, Op::DepositHouse { authority, authority_token_account, amount });
        }
        let h = match self.house {
            Some(h) => h,
            None => {
                return Err(ErrorCode::AccountNotFound);
            },
        };
        if authority != h.authority {
            return Err(ErrorCode::Unauthorized);
        }
        self.ledger.transfer(
            authority_token_account,
            h.house_token_account,
            Address::Wallet(authority),
            amount,
        )
    }

    /// Moves `amount` from the treasury back to the authority's own account,
    /// signed by the treasury's derived identity.
    pub fn withdraw_house(
        &mut self,
        authority: Pubkey,
        house_token_account: Pubkey,
        authority_token_account: Pubkey,
        amount: u64,
    ) -> (r: Result<(), ErrorCode>)
        requires
            old(self).wf(),
        ensures
            final(self).wf(),
            (final(self)@, r) == step_withdraw_house(
                old(self)@,
                authority,
                house_token_account,
                authority_token_account,
                amount,
            ),
    {
        proof {
            lemma_escrow_held_kept(self@, Op::WithdrawHouse { authority, house_token_account, authority_token_account, amount });
        }
        let h = match self.house {
            Some(h) => h,
            None => {
                return Err(ErrorCode::AccountNotFound);
            },
        };
        if authority != h.authority || house_token_account != h.house_token_account {
            return Err(ErrorCode::Unauthorized);
        }
        match self.ledger.get(authority_token_account) {
            Some(a) => {
                if a.authority != Address::Wallet(authority) {
                    return Err(ErrorCode::Unauthorized);
                }
            },
            None => {},
        }
        self.ledger.transfer(h.house_token_account, authority_token_account, house_address(), amount)
    }

    /// Places a wager of `bet_amount` on `user_guess`: opens the escrow account
    /// `escrow_token_account` under the wager's derived identity and funds it
    /// from the user's account.
    pub fn place_bet(
        &mut self,
        user: Pubkey,
        user_token_account: Pubkey,
        escrow_token_account: Pubkey,
        user_seed: u64,
        bet_amount: u64,
        user_guess: bool,
    ) -> (r: Result<(), ErrorCode>)
        requires
            old(self).wf(),
        ensures
            final(self).wf(),
            (final(self)@, r) == step_place_bet(
                old(self)@,
                user,
                user_token_account,
                escrow_token_account,
                user_seed,
                bet_amount,
                user_guess,
            ),
    {
        proof {
            lemma_escrow_held_kept(self@, Op::PlaceBet { user, user_token_account, escrow_token_account, user_seed, bet_amount, user_guess });
        }
        if bet_amount == 0 {
            return Err(ErrorCode::InvalidBetAmount);
        }
        let h = match self.house {
            Some(h) => h,
            None => {
                return Err(ErrorCode::AccountNotFound);
            },
        };
        match self.ledger.balance(h.house_token_account) {
            None => {
                return Err(ErrorCode::AccountNotFound);
            },
            Some(b) => {
                if b < bet_amount {
                    return Err(ErrorCode::InsufficientHouseBalance);
                }
            },
        }
        if self.find_bet(user, user_seed).is_some() {
            return Err(ErrorCode::DuplicateWager);
        }
        let saved = self.ledger.snapshot();
        match self.ledger.open_account(escrow_token_account, bet_address(user, user_seed), 0) {
            Err(_) => {
                return Err(ErrorCode::DuplicateWager);
            },
            Ok(()) => {},
        }
        match self.ledger.transfer(
            user_token_account,
            escrow_token_account,
            Address::Wallet(user),
            bet_amount,
        ) {
            Err(e) => {
                self.ledger = saved;
                return Err(e);
            },
            Ok(()) => {},
        }
        let b = Bet {
            user,
            amount: bet_amount,
            user_guess,
            user_seed,
            house_seed: 0,
            result: false,
            settled: false,
            escrow_token_account,
        };
        proof {
            lemma_table_push(self.bets@, bet_key(), b);
        }
        self.bets.push(b);
        Ok(())
    }

    /// Settles the wager of `user` with seed `user_seed` against `house_seed`:
    /// records the outcome, counts it for the house, and pays out of escrow
    /// (and, on a win, out of the treasury) to `user_token_account`, or out of
    /// escrow to the treasury on a loss.
    pub fn settle_bet(&mut self, user: Pubkey, user_seed: u64, user_token_account: Pubkey, house_seed: u64) -> (r:
        Result<(), ErrorCode>)
        requires
            old(self).wf(),
        ensures
            final(self).wf(),
            (final(self)@, r) == step_settle_bet(
                old(self)@,
                user,
                user_seed,
                user_token_account,
                house_seed,
            ),
    {
        proof {
            lemma_escrow_held_kept(self@, Op::SettleBet { user, user_seed, user_token_account, house_seed });
        }
        let h = match self.house {
            Some(h) => h,
            None => {
                return Err(ErrorCode::AccountNotFound);
            },
        };
        let i = match self.find_bet(user, user_seed) {
            Some(i) => i,
            None => {
                return Err(ErrorCode::AccountNotFound);
            },
        };
        let bet = self.bets[i];
        if bet.settled {
            return Err(ErrorCode::BetAlreadySettled);
        }
        let result = coin_result(bet.user_seed, house_seed);
        let won = result == bet.user_guess;
        if (won && h.loss_count == u64::MAX) || (!won && h.win_count == u64::MAX) {
            return Err(ErrorCode::ArithmeticOverflow);
        }
        match self.ledger.get(user_token_account) {
            Some(a) => {
                if a.authority != Address::Wallet(bet.user) {
                    return Err(ErrorCode::Unauthorized);
                }
            },
            None => {},
        }
        let signer = bet_address(bet.user, bet.user_seed);
        if won {
            let saved = self.ledger.snapshot();
            match self.ledger.transfer(bet.escrow_token_account, user_token_account, signer, bet.amount) {
                Err(e) => {
                    return Err(e);
                },
                Ok(()) => {},
            }
            match self.ledger.transfer(
                h.house_token_account,
                user_token_account,
                house_address(),
                bet.amount,
            ) {
                Err(e) => {
                    self.ledger = saved;
                    return Err(e);
                },
                Ok(()) => {},
            }
        } else {
            match self.ledger.transfer(
                bet.escrow_token_account,
                h.house_token_account,
                signer,
                bet.amount,
            ) {
                Err(e) => {
                    return Err(e);
                },
                Ok(()) => {},
            }
        }
        let done = Bet {
            user: bet.user,
            amount: bet.amount,
            user_guess: bet.user_guess,
            user_seed: bet.user_seed,
            house_seed,
            result,
            settled: true,
            escrow_token_account: bet.escrow_token_account,
        };
        proof {
            lemma_table_update(self.bets@, bet_key(), i as int, done);
        }
        self.bets.set(i, done);
        self.house = Some(
            House {
                bump: h.bump,
                authority: h.authority,
                house_token_account: h.house_token_account,
                win_count: if won { h.win_count } else { h.win_count + 1 },
                loss_count: if won { h.loss_count + 1 } else { h.loss_count },
            },
        );
        Ok(())
    }
}

} // verus!
