//! Token accounts and the transfer between them.
use vstd::prelude::*;
use crate::ids::{Address, Pubkey};
use crate::state::ErrorCode;
use crate::table::{lemma_table_absent, lemma_table_at, lemma_table_empty, lemma_table_push,
    lemma_table_update, table, unique_keys};

verus! {

/// An account holding `amount` funds, which only `authority` may move out.
#[derive(Clone, Copy, Debug, PartialEq, Eq, Structural)]
pub struct TokenAccount {
    pub key: Pubkey,
    pub authority: Address,
    pub amount: u64,
}

pub open spec fn account_key() -> spec_fn(TokenAccount) -> Pubkey {
    |a: TokenAccount| a.key
}

pub open spec fn with_amount(a: TokenAccount, amount: int) -> TokenAccount {
    TokenAccount { key: a.key, authority: a.authority, amount: amount as u64 }
}

/// Why moving `amount` from `from` to `to` on the authority of `signer` fails,
/// if it does.
pub open spec fn transfer_error(
    m: Map<Pubkey, TokenAccount>,
    from: Pubkey,
    to: Pubkey,
    signer: Address,
    amount: u64,
) -> Option<ErrorCode> {
    if !m.contains_key(from) || !m.contains_key(to) {
        Some(ErrorCode::AccountNotFound)
    } else if m[from].authority != signer {
        Some(ErrorCode::Unauthorized)
    } else if m[from].amount < amount {
        Some(ErrorCode::InsufficientFunds)
    } else if from != to && m[to].amount + amount > u64::MAX {
        Some(ErrorCode::ArithmeticOverflow)
    } else {
        None
    }
}

/// The accounts after a transfer that `transfer_error` admits.
pub open spec fn transferred(
    m: Map<Pubkey, TokenAccount>,
    from: Pubkey,
    to: Pubkey,
    amount: u64,
) -> Map<Pubkey, TokenAccount> {
    if from == to {
        m
    } else {
        m.insert(from, with_amount(m[from], m[from].amount - amount)).insert(
            to,
            with_amount(m[to], m[to].amount + amount),
        )
    }
}

/// A transfer as a step: the accounts after it, and its outcome. A refused
/// transfer changes nothing.
pub open spec fn step_transfer(
    m: Map<Pubkey, TokenAccount>,
    from: Pubkey,
    to: Pubkey,
    signer: Address,
    amount: u64,
) -> (Map<Pubkey, TokenAccount>, Result<(), ErrorCode>) {
    match transfer_error(m, from, to, signer, amount) {
        Some(e) => (m, Err(e)),
        None => (transferred(m, from, to, amount), Ok(())),
    }
}

/// All token accounts, each key at most once.
pub struct Ledger {
    accounts: Vec<TokenAccount>,
}

impl View for Ledger {
    type V = Map<Pubkey, TokenAccount>;

    closed spec fn view(&self) -> Map<Pubkey, TokenAccount> {
        table(self.accounts@, account_key())
    }
}

impl Ledger {
    pub closed spec fn wf(&self) -> bool {
        unique_keys(self.accounts@, account_key())
    }

    pub fn new() -> (r: Ledger)
        ensures
            r.wf(),
            r@ == Map::<Pubkey, TokenAccount>::empty(),
    {
        proof {
            lemma_table_empty(account_key());
        }
        Ledger { accounts: Vec::new() }
    }

    /// The position of the account with key `key`, if there is one.
    fn find(&self, key: Pubkey) -> (r: Option<usize>)
        requires
            self.wf(),
        ensures
            match r {
                Some(i) => i < self.accounts@.len() && self.accounts@[i as int].key == key
                    && self@.contains_key(key) && self@[key] == self.accounts@[i as int],
                None => !self@.contains_key(key),
            },
    {
        let mut i: usize = 0;
        while i < self.accounts.len()
            invariant
                self.wf(),
                i <= self.accounts@.len(),
                forall|j: int| 0 <= j < i ==> self.accounts@[j].key != key,
            decreases self.accounts@.len() - i,
        {
            if self.accounts[i].key == key {
                proof {
                    lemma_table_at(self.accounts@, account_key(), i as int);
                }
                return Some(i);
            }
            i = i + 1;
        }
        proof {
            lemma_table_absent(self.accounts@, account_key(), key);
        }
        None
    }

    /// The account with key `key`, if there is one.
    pub fn get(&self, key: Pubkey) -> (r: Option<TokenAccount>)
        requires
            self.wf(),
        ensures
            r == (if self@.contains_key(key) { Some(self@[key]) } else { None::<TokenAccount> }),
    {
        match self.find(key) {
            Some(i) => Some(self.accounts[i]),
            None => None,
        }
    }

    /// The funds held by the account with key `key`, if there is one.
    pub fn balance(&self, key: Pubkey) -> (r: Option<u64>)
        requires
            self.wf(),
        ensures
            r == (if self@.contains_key(key) { Some(self@[key].amount) } else { None::<u64> }),
    {
        match self.find(key) {
            Some(i) => Some(self.accounts[i].amount),
            None => None,
        }
    }

    /// A copy of the ledger, to return to when a multi-leg operation fails.
    pub fn snapshot(&self) -> (r: Ledger)
        requires
            self.wf(),
        ensures
            r.wf(),
            r@ == self@,
    {
        let mut v: Vec<TokenAccount> = Vec::new();
        let mut i: usize = 0;
        while i < self.accounts.len()
            invariant
                i <= self.accounts@.len(),
                v@ == self.accounts@.subrange(0, i as int),
            decreases self.accounts@.len() - i,
        {
            v.push(self.accounts[i]);
            i = i + 1;
            assert(v@ =~= self.accounts@.subrange(0, i as int));
        }
        assert(v@ =~= self.accounts@);
        Ledger { accounts: v }
    }

    /// Creates the account `key` under `authority` holding `amount`; refused
    /// with `AlreadyExists` where the key is taken.
    pub fn open_account(&mut self, key: Pubkey, authority: Address, amount: u64) -> (r: Result<
        (),
        ErrorCode,
    >)
        requires
            old(self).wf(),
        ensures
            final(self).wf(),
            old(self)@.contains_key(key) ==> r == Err::<(), ErrorCode>(ErrorCode::AlreadyExists)
                && final(self)@ == old(self)@,
            !old(self)@.contains_key(key) ==> r is Ok && final(self)@ == old(self)@.insert(
                key,
                TokenAccount { key, authority, amount },
            ),
    {
        match self.find(key) {
            Some(_) => Err(ErrorCode::AlreadyExists),
            None => {
                let a = TokenAccount { key, authority, amount };
                proof {
                    lemma_table_push(self.accounts@, account_key(), a);
                }
                self.accounts.push(a);
                Ok(())
            },
        }
    }

    /// Moves `amount` from `from` to `to` on the authority of `signer`.
    pub fn transfer(&mut self, from: Pubkey, to: Pubkey, signer: Address, amount: u64) -> (r:
        Result<(), ErrorCode>)
        requires
            old(self).wf(),
        ensures
            final(self).wf(),
            (final(self)@, r) == step_transfer(old(self)@, from, to, signer, amount),
    {
        let fi = match self.find(from) {
            Some(i) => i,
            None => {
                return Err(ErrorCode::AccountNotFound);
            },
        };
        let ti = match self.find(to) {
            Some(i) => i,
            None => {
                return Err(ErrorCode::AccountNotFound);
            },
        };
        let src = self.accounts[fi];
        let dst = self.accounts[ti];
        if src.authority != signer {
            return Err(ErrorCode::Unauthorized);
        }
        if src.amount < amount {
            return Err(ErrorCode::InsufficientFunds);
        }
        if fi == ti {
            return Ok(());
        }
        if dst.amount > u64::MAX - amount {
            return Err(ErrorCode::ArithmeticOverflow);
        }
        let new_src = TokenAccount { key: src.key, authority: src.authority, amount: src.amount - amount };
        proof {
            lemma_table_update(self.accounts@, account_key(), fi as int, new_src);
        }
        self.accounts.set(fi, new_src);
        let new_dst = TokenAccount { key: dst.key, authority: dst.authority, amount: dst.amount + amount };
        proof {
            lemma_table_update(self.accounts@, account_key(), ti as int, new_dst);
        }
        self.accounts.set(ti, new_dst);
        Ok(())
    }
}

} // verus!
