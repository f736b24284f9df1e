//! The login flow: the server hands out a challenge, and accepts the login
//! of whoever signs it.

use crate::flow::{claim, FlowError, STATUS_OK};
use crate::messages::{AuthChallengeResponse, AuthRequest, AuthResponse, AUTH_TAG};
use crate::node::{parses_as_public_key, public_key_parses, CheckMessageOrder, SignatureCheck};
use crate::store::{redeem_outcome, redeemed, well_formed, Ledger, TokenStore};
use crate::token::is_token;
use vstd::prelude::*;

verus! {

/// The action every challenge is for.
pub const AUTH_ACTION: &'static str = "login";

/// The event every accepted login reports.
pub const AUTH_EVENT: &'static str = "LOGGEDIN";

/// The challenge that goes with token `k1`.
pub open spec fn is_auth_challenge(challenge: AuthChallengeResponse, k1: Seq<char>) -> bool {
    &&& challenge.tag@ == AUTH_TAG@
    &&& challenge.k1@ == k1
    &&& challenge.action matches Some(action)
    &&& action@ == AUTH_ACTION@
}

/// The order that `params` asks for: the signature is checked over the
/// token itself.
pub open spec fn is_auth_order(order: CheckMessageOrder, params: AuthRequest) -> bool {
    &&& order.message@ == params.k1@
    &&& order.zbase@ == params.sig@
    &&& order.pubkey@ == params.key@
}

/// The acknowledgement of an accepted login.
pub open spec fn is_auth_ack(response: AuthResponse) -> bool {
    &&& response.status@ == STATUS_OK@
    &&& response.event matches Some(event)
    &&& event@ == AUTH_EVENT@
}

/// Describes the challenge under token `k1`.
pub fn auth_offer(k1: String) -> (challenge: AuthChallengeResponse)
    ensures
        is_auth_challenge(challenge, k1@),
{
    AuthChallengeResponse { tag: AUTH_TAG.to_owned(), k1, action: Some(AUTH_ACTION.to_owned()) }
}

/// Issues a token and hands it out as a login challenge. `None` where no
/// fresh token could be minted; the store is then unchanged.
pub fn auth_challenge(store: &mut TokenStore) -> (offered: Option<AuthChallengeResponse>)
    ensures
        match offered {
            Some(challenge) => {
                &&& is_auth_challenge(challenge, challenge.k1@)
                &&& is_token(challenge.k1@)
                &&& !old(store)@.contains_key(challenge.k1@)
                &&& final(store)@ == old(store)@.insert(challenge.k1@, false)
            },
            None => final(store)@ == old(store)@,
        },
        old(store)@ == Ledger::empty() ==> offered is Some,
        well_formed(final(store)@),
{
    match store.issue() {
        Some(k1) => Some(auth_offer(k1)),
        None => None,
    }
}

/// Turns the parameters of a login whose token was redeemed into an
/// order, given whether `key` parsed as a public key.
pub fn auth_order(params: &AuthRequest, key_parses: bool) -> (ordered: Result<
    CheckMessageOrder,
    FlowError,
>)
    ensures
        match ordered {
            Ok(order) => key_parses && is_auth_order(order, *params),
            Err(error) => !key_parses && error == FlowError::InvalidInput,
        },
{
    if !key_parses {
        return Err(FlowError::InvalidInput);
    }
    Ok(
        CheckMessageOrder {
            message: params.k1.clone(),
            zbase: params.sig.clone(),
            pubkey: params.key.clone(),
        },
    )
}

/// Handles a login up to the node: redeems the token, then checks the
/// claimed key. The token is spent even where the key is refused.
pub fn auth_response(store: &mut TokenStore, params: &AuthRequest) -> (ordered: Result<
    CheckMessageOrder,
    FlowError,
>)
    ensures
        final(store)@ == redeemed(old(store)@, params.k1@),
        well_formed(final(store)@),
        match ordered {
            Ok(order) => {
                &&& redeem_outcome(old(store)@, params.k1@) is Ok
                &&& public_key_parses(params.key@)
                &&& is_auth_order(order, *params)
            },
            Err(error) => if redeem_outcome(old(store)@, params.k1@) is Err {
                error == FlowError::InvalidToken
            } else {
                !public_key_parses(params.key@) && error == FlowError::InvalidInput
            },
        },
{
    match claim(store, params.k1.as_str()) {
        Err(error) => Err(error),
        Ok(_) => {
            let key_parses = parses_as_public_key(params.key.as_str());
            auth_order(params, key_parses)
        },
    }
}

/// Shapes the response to a login from the node's answer: a wrong
/// signature is an authentication failure, a node that failed is not.
pub fn auth_outcome(check: SignatureCheck) -> (answer: Result<AuthResponse, FlowError>)
    ensures
        match answer {
            Ok(response) => check == SignatureCheck::Verified && is_auth_ack(response),
            Err(error) => match check {
                SignatureCheck::Verified => false,
                SignatureCheck::Rejected => error == FlowError::Unauthorized,
                SignatureCheck::Failure => error == FlowError::UpstreamFailure,
            },
        },
{
    match check {
        SignatureCheck::Verified => Ok(
            AuthResponse { status: STATUS_OK.to_owned(), event: Some(AUTH_EVENT.to_owned()) },
        ),
        SignatureCheck::Rejected => Err(FlowError::Unauthorized),
        SignatureCheck::Failure => Err(FlowError::UpstreamFailure),
    }
}

} // verus!
