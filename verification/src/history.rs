//! Laws of the token store, stated over histories of calls.
//!
//! A history is a sequence of calls as the store answered them: each issue
//! with the token it returned, each redemption with the token presented.
//! A registration that the store accepted counts as an issue of its
//! candidate; one it refused changes nothing and is left out.
//! The lock around the store puts concurrent calls in some order, so what
//! holds of every history holds of every interleaving.

use crate::store::{redeem_outcome, redeemed, well_formed, Ledger, RedeemError};
use crate::token::is_token;
use vstd::prelude::*;

verus! {

/// One call on the store.
pub enum Call {
    /// `issue` returned `token`, or `register` accepted it.
    Issue { token: Seq<char> },
    /// `redeem` was called with `token`.
    Redeem { token: Seq<char> },
}

impl Call {
    /// The token the call returned or was given.
    pub open spec fn token(self) -> Seq<char> {
        match self {
            Call::Issue { token } => token,
            Call::Redeem { token } => token,
        }
    }
}

/// What the store promises of a call made on `ledger`: a token that
/// enters the store is well formed and was not in the store before.
pub open spec fn allowed(ledger: Ledger, call: Call) -> bool {
    call is Issue ==> is_token(call.token()) && !ledger.contains_key(call.token())
}

/// The ledger after `call`.
pub open spec fn step(ledger: Ledger, call: Call) -> Ledger {
    match call {
        Call::Issue { token } => ledger.insert(token, false),
        Call::Redeem { token } => redeemed(ledger, token),
    }
}

/// The ledger after all of `calls`, made in order from `start`.
pub open spec fn run(start: Ledger, calls: Seq<Call>) -> Ledger
    decreases calls.len(),
{
    if calls.len() == 0 {
        start
    } else {
        step(run(start, calls.drop_last()), calls.last())
    }
}

/// Every call of the history is one the store can have answered.
pub open spec fn lawful(start: Ledger, calls: Seq<Call>) -> bool {
    forall|i: int| 0 <= i < calls.len() ==> allowed(run(start, #[trigger] calls.take(i)), calls[i])
}

/// A prefix of a lawful history is lawful.
pub proof fn lemma_prefix_lawful(start: Ledger, calls: Seq<Call>, n: int)
    requires
        lawful(start, calls),
        0 <= n <= calls.len(),
    ensures
        lawful(start, calls.take(n)),
{
    let prefix = calls.take(n);
    assert forall|i: int| 0 <= i < prefix.len() implies allowed(
        run(start, #[trigger] prefix.take(i)),
        prefix[i],
    ) by {
        assert(prefix.take(i) =~= calls.take(i));
        assert(allowed(run(start, calls.take(i)), calls[i]));
    }
}

/// One more call: the run of `n + 1` calls is the run of `n`, then a step.
pub proof fn lemma_run_unfold(start: Ledger, calls: Seq<Call>, n: int)
    requires
        0 <= n < calls.len(),
    ensures
        run(start, calls.take(n + 1)) == step(run(start, calls.take(n)), calls[n]),
{
    assert(calls.take(n + 1).drop_last() =~= calls.take(n));
    assert(calls.take(n + 1).last() == calls[n]);
}

/// No call removes a token, and no call clears a used flag.
pub proof fn lemma_step_keeps(ledger: Ledger, call: Call, token: Seq<char>)
    requires
        allowed(ledger, call),
        ledger.contains_key(token),
    ensures
        step(ledger, call).contains_key(token),
        ledger[token] ==> step(ledger, call)[token],
{
}

/// A token that is in the store after `m` calls is still there after any
/// `n >= m` calls, and if it was used then, it is used ever after.
pub proof fn lemma_tokens_stay(start: Ledger, calls: Seq<Call>, m: int, n: int, token: Seq<char>)
    requires
        lawful(start, calls),
        0 <= m <= n <= calls.len(),
        run(start, calls.take(m)).contains_key(token),
    ensures
        run(start, calls.take(n)).contains_key(token),
        run(start, calls.take(m))[token] ==> run(start, calls.take(n))[token],
    decreases n - m,
{
    if m < n {
        lemma_tokens_stay(start, calls, m, n - 1, token);
        lemma_run_unfold(start, calls, n - 1);
        assert(allowed(run(start, calls.take(n - 1)), calls[n - 1]));
        lemma_step_keeps(run(start, calls.take(n - 1)), calls[n - 1], token);
    }
}

/// Tokens returned by two different issues of one history differ,
/// whatever other calls were made before, between and after them.
pub proof fn lemma_issued_tokens_distinct(start: Ledger, calls: Seq<Call>, i: int, j: int)
    requires
        lawful(start, calls),
        0 <= i < j < calls.len(),
        calls[i] is Issue,
        calls[j] is Issue,
    ensures
        calls[i].token() != calls[j].token(),
{
    lemma_run_unfold(start, calls, i);
    lemma_tokens_stay(start, calls, i + 1, j, calls[i].token());
    assert(allowed(run(start, calls.take(j)), calls[j]));
}

/// A token that is in the store after a history was there at the start or
/// was returned by one of its issues.
pub proof fn lemma_known_tokens_were_issued(start: Ledger, calls: Seq<Call>, token: Seq<char>)
    requires
        run(start, calls).contains_key(token),
        !start.contains_key(token),
    ensures
        exists|i: int| 0 <= i < calls.len() && calls[i] == (Call::Issue { token }),
    decreases calls.len(),
{
    if calls.len() > 0 {
        let before = run(start, calls.drop_last());
        if before.contains_key(token) {
            lemma_known_tokens_were_issued(start, calls.drop_last(), token);
            let i = choose|i: int|
                0 <= i < calls.drop_last().len() && calls.drop_last()[i] == (Call::Issue { token });
            assert(calls[i] == (Call::Issue { token }));
        } else {
            assert(calls[calls.len() - 1] == (Call::Issue { token }));
        }
    }
}

/// Redeeming a token that no issue of the history returned, on a store
/// that started empty, answers `NotFound`.
pub proof fn lemma_never_issued_not_found(calls: Seq<Call>, token: Seq<char>)
    requires
        forall|i: int| 0 <= i < calls.len() ==> calls[i] != (Call::Issue { token }),
    ensures
        redeem_outcome(run(Ledger::empty(), calls), token) == Err::<(), RedeemError>(
            RedeemError::NotFound,
        ),
{
    if run(Ledger::empty(), calls).contains_key(token) {
        lemma_known_tokens_were_issued(Ledger::empty(), calls, token);
    }
}

/// Two redemptions of one token in a row: the first succeeds exactly when
/// the token is in the store unused, and the second never does.
pub proof fn lemma_redeem_twice(ledger: Ledger, token: Seq<char>)
    ensures
        redeem_outcome(ledger, token) is Ok ==> redeem_outcome(redeemed(ledger, token), token)
            == Err::<(), RedeemError>(RedeemError::AlreadyUsed),
        redeem_outcome(redeemed(ledger, token), token) is Err,
        redeemed(redeemed(ledger, token), token) == redeemed(ledger, token),
{
}

/// Of two redemptions of an issued, unused token exactly one succeeds:
/// the one the store serves first. The other, whatever calls the store
/// served in between, answers `AlreadyUsed`.
pub proof fn lemma_single_redemption(ledger: Ledger, token: Seq<char>, between: Seq<Call>)
    requires
        ledger.contains_key(token),
        !ledger[token],
        lawful(redeemed(ledger, token), between),
    ensures
        redeem_outcome(ledger, token) == Ok::<(), RedeemError>(()),
        redeem_outcome(run(redeemed(ledger, token), between), token) == Err::<(), RedeemError>(
            RedeemError::AlreadyUsed,
        ),
{
    let first = redeemed(ledger, token);
    assert(between.take(0) =~= Seq::<Call>::empty());
    assert(between.take(between.len() as int) =~= between);
    lemma_tokens_stay(first, between, 0, between.len() as int, token);
}

/// A lawful history keeps a well-formed ledger well formed.
pub proof fn lemma_run_well_formed(start: Ledger, calls: Seq<Call>)
    requires
        well_formed(start),
        lawful(start, calls),
    ensures
        well_formed(run(start, calls)),
    decreases calls.len(),
{
    if calls.len() > 0 {
        let n = calls.len() - 1;
        lemma_prefix_lawful(start, calls, n);
        assert(calls.take(n) =~= calls.drop_last());
        lemma_run_well_formed(start, calls.drop_last());
        assert(allowed(run(start, calls.take(n)), calls[n]));
    }
}

} // verus!
