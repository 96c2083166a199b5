//! Identities: plain keys, and the identities derived from a namespace tag
//! plus key material, which let the engine sign for the accounts they own.
use vstd::prelude::*;

verus! {

/// A 32-byte identity, held as two 128-bit halves.
#[derive(Clone, Copy, Debug, PartialEq, Eq, Structural)]
pub struct Pubkey {
    pub hi: u128,
    pub lo: u128,
}

impl Pubkey {
    pub fn new(hi: u128, lo: u128) -> (r: Pubkey)
        ensures
            r.hi == hi,
            r.lo == lo,
    {
        Pubkey { hi, lo }
    }
}

/// Who may move the funds of an account: a key holder, or an identity derived
/// by the engine (the treasury, or one wager keyed by its user and seed).
/// Distinct derivation inputs give distinct identities.
#[derive(Clone, Copy, Debug, PartialEq, Eq, Structural)]
pub enum Address {
    Wallet(Pubkey),
    House,
    Bet { user: Pubkey, user_seed: u64 },
}

/// The identity of the treasury, derived from the tag "house" alone.
pub fn house_address() -> (r: Address)
    ensures
        r == Address::House,
{
    Address::House
}

/// The identity of the wager of `user` with seed `user_seed`, derived from the
/// tag "bet", the user and the seed.
pub fn bet_address(user: Pubkey, user_seed: u64) -> (r: Address)
    ensures
        r == (Address::Bet { user, user_seed }),
{
    Address::Bet { user, user_seed }
}

} // verus!
