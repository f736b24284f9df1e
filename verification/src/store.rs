//! The token store: every challenge ever issued, with its used flag.
//!
//! A token enters the store unused, can be redeemed once, and never leaves.

use crate::token::{generate_k1, is_token, is_well_formed};
use vstd::hash_map::StringHashMap;
use vstd::prelude::*;

verus! {

/// How many candidates `issue` draws before it gives up.
pub const ISSUE_ATTEMPTS: u32 = 4;

/// Why a token could not be redeemed.
#[derive(Clone, Copy, Debug, PartialEq, Eq, Structural)]
pub enum RedeemError {
    /// The token was never issued by this store.
    NotFound,
    /// The token was issued and has been redeemed before.
    AlreadyUsed,
}

/// Why a candidate was not taken into the store.
#[derive(Clone, Copy, Debug, PartialEq, Eq, Structural)]
pub enum RegisterError {
    /// The candidate is not 64 lowercase hex digits.
    Malformed,
    /// The candidate is already in the store, used or not.
    Collision,
}

/// The state of a store: each issued token mapped to whether it was used.
pub type Ledger = Map<Seq<char>, bool>;

/// A ledger holds nothing but well-formed tokens.
pub open spec fn well_formed(ledger: Ledger) -> bool {
    forall|k: Seq<char>| #[trigger] ledger.contains_key(k) ==> is_token(k)
}

/// What redeeming `token` against `ledger` answers.
pub open spec fn redeem_outcome(ledger: Ledger, token: Seq<char>) -> Result<(), RedeemError> {
    if !ledger.contains_key(token) {
        Err(RedeemError::NotFound)
    } else if ledger[token] {
        Err(RedeemError::AlreadyUsed)
    } else {
        Ok(())
    }
}

/// The ledger after redeeming `token`: marked used where the redemption
/// succeeds, untouched where it fails.
pub open spec fn redeemed(ledger: Ledger, token: Seq<char>) -> Ledger {
    if redeem_outcome(ledger, token) is Ok {
        ledger.insert(token, true)
    } else {
        ledger
    }
}

/// What registering `candidate` with `ledger` answers.
pub open spec fn register_outcome(ledger: Ledger, candidate: Seq<char>) -> Result<
    (),
    RegisterError,
> {
    if !is_token(candidate) {
        Err(RegisterError::Malformed)
    } else if ledger.contains_key(candidate) {
        Err(RegisterError::Collision)
    } else {
        Ok(())
    }
}

/// The ledger after registering `candidate`: entered unused where the
/// registration succeeds, untouched where it fails.
pub open spec fn registered(ledger: Ledger, candidate: Seq<char>) -> Ledger {
    if register_outcome(ledger, candidate) is Ok {
        ledger.insert(candidate, false)
    } else {
        ledger
    }
}

/// Issues single-use tokens and redeems them.
pub struct TokenStore {
    records: StringHashMap<bool>,
}

impl View for TokenStore {
    type V = Ledger;

    closed spec fn view(&self) -> Ledger {
        self.records@
    }
}

impl TokenStore {
    #[verifier::type_invariant]
    spec fn only_tokens(&self) -> bool {
        well_formed(self.records@)
    }

    /// An empty store.
    pub fn new() -> (store: Self)
        ensures
            store@ == Ledger::empty(),
    {
        TokenStore { records: StringHashMap::new() }
    }

    /// Writes one record. The map is moved out of the store while it is
    /// changed, so the store never holds a map that is half written.
    fn put(&mut self, token: String, used: bool)
        requires
            is_token(token@),
        ensures
            final(self)@ == old(self)@.insert(token@, used),
    {
        proof {
            use_type_invariant(&*self);
        }
        let mut records = StringHashMap::new();
        core::mem::swap(&mut self.records, &mut records);
        records.insert(token, used);
        core::mem::swap(&mut self.records, &mut records);
    }

    /// Takes `candidate` into the store as an unused token, unless it is
    /// malformed or already present; a collision never overwrites.
    pub fn register(&mut self, candidate: String) -> (outcome: Result<(), RegisterError>)
        ensures
            outcome == register_outcome(old(self)@, candidate@),
            final(self)@ == registered(old(self)@, candidate@),
            well_formed(final(self)@),
    {
        proof {
            use_type_invariant(&*self);
        }
        if !is_well_formed(candidate.as_str()) {
            return Err(RegisterError::Malformed);
        }
        if self.records.contains_key(candidate.as_str()) {
            return Err(RegisterError::Collision);
        }
        self.put(candidate, false);
        Ok(())
    }

    /// Mints a fresh token and stores it unused. Candidates that collide
    /// with a stored token are dropped and drawn again, up to
    /// `ISSUE_ATTEMPTS` times; only if all of them collide is no token
    /// issued. An empty store has nothing to collide with.
    pub fn issue(&mut self) -> (issued: Option<String>)
        ensures
            match issued {
                Some(token) => {
                    &&& is_token(token@)
                    &&& !old(self)@.contains_key(token@)
                    &&& final(self)@ == old(self)@.insert(token@, false)
                },
                None => final(self)@ == old(self)@,
            },
            old(self)@ == Ledger::empty() ==> issued is Some,
            well_formed(final(self)@),
    {
        proof {
            use_type_invariant(&*self);
        }
        let mut attempt: u32 = 0;
        while attempt < ISSUE_ATTEMPTS
            invariant
                self@ == old(self)@,
                well_formed(self@),
                attempt > 0 ==> old(self)@ != Ledger::empty(),
            decreases ISSUE_ATTEMPTS - attempt,
        {
            let candidate = generate_k1();
            let token = candidate.clone();
            if self.register(candidate).is_ok() {
                return Some(token);
            }
            attempt += 1;
        }
        None
    }

    /// Redeems `token`: the first redemption of an issued token succeeds
    /// and marks it used; every later one, and any on an unknown token,
    /// fails and leaves the store as it was.
    pub fn redeem(&mut self, token: &str) -> (outcome: Result<(), RedeemError>)
        ensures
            outcome == redeem_outcome(old(self)@, token@),
            final(self)@ == redeemed(old(self)@, token@),
            well_formed(final(self)@),
    {
        proof {
            use_type_invariant(&*self);
        }
        let used = match self.records.get(token) {
            None => {
                return Err(RedeemError::NotFound);
            },
            Some(flag) => *flag,
        };
        if used {
            return Err(RedeemError::AlreadyUsed);
        }
        self.put(token.to_owned(), true);
        Ok(())
    }

    /// Whether `token` was issued by this store.
    pub fn contains(&self, token: &str) -> (known: bool)
        ensures
            known == self@.contains_key(token@),
            well_formed(self@),
    {
        proof {
            use_type_invariant(self);
        }
        self.records.contains_key(token)
    }

    /// Whether `token` was issued and has been redeemed.
    pub fn is_used(&self, token: &str) -> (used: bool)
        ensures
            used == (self@.contains_key(token@) && self@[token@]),
            well_formed(self@),
    {
        proof {
            use_type_invariant(self);
        }
        match self.records.get(token) {
            None => false,
            Some(flag) => *flag,
        }
    }
}

} // verus!
