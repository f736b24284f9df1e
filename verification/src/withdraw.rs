//! The withdraw flow: the server offers to pay an invoice of the client's,
//! and pays the one the client calls back with.

use crate::flow::{claim, FlowError, SERVER_URL, STATUS_OK};
use crate::messages::{
    WithdrawRequest, WithdrawRequestResponse, WithdrawResponse, WITHDRAW_REQUEST_TAG,
};
use crate::node::{NodeActionResult, PayOrder};
use crate::store::{redeem_outcome, redeemed, well_formed, Ledger, TokenStore};
use crate::token::is_token;
use vstd::prelude::*;
use vstd::string::StringExecFns;

verus! {

/// Least amount on offer, in millisatoshis.
pub const MIN_WITHDRAWABLE: u64 = 1_000;

/// Greatest amount on offer, in millisatoshis.
pub const MAX_WITHDRAWABLE: u64 = 1_000_000;

/// Description proposed for the invoice.
pub const DEFAULT_DESCRIPTION: &'static str = "LNURL withdraw";

/// Path of the withdraw callback.
pub const WITHDRAW_CALLBACK_PATH: &'static str = "/withdraw-callback";

/// The offer that goes with token `k1`.
pub open spec fn is_withdraw_offer(offer: WithdrawRequestResponse, k1: Seq<char>) -> bool {
    &&& offer.tag@ == WITHDRAW_REQUEST_TAG@
    &&& offer.callback@ == SERVER_URL@ + WITHDRAW_CALLBACK_PATH@
    &&& offer.k1@ == k1
    &&& offer.default_description@ == DEFAULT_DESCRIPTION@
    &&& offer.min_withdrawable == MIN_WITHDRAWABLE
    &&& offer.max_withdrawable == MAX_WITHDRAWABLE
}

/// Describes the withdrawal on offer under token `k1`.
pub fn withdraw_offer(k1: String) -> (offer: WithdrawRequestResponse)
    ensures
        is_withdraw_offer(offer, k1@),
{
    WithdrawRequestResponse {
        tag: WITHDRAW_REQUEST_TAG.to_owned(),
        callback: SERVER_URL.to_owned().concat(WITHDRAW_CALLBACK_PATH),
        k1,
        default_description: DEFAULT_DESCRIPTION.to_owned(),
        min_withdrawable: MIN_WITHDRAWABLE,
        max_withdrawable: MAX_WITHDRAWABLE,
    }
}

/// Issues a token and offers a withdrawal under it. `None` where no fresh
/// token could be minted; the store is then unchanged.
pub fn withdraw_request(store: &mut TokenStore) -> (offered: Option<WithdrawRequestResponse>)
    ensures
        match offered {
            Some(offer) => {
                &&& is_withdraw_offer(offer, offer.k1@)
                &&& is_token(offer.k1@)
                &&& !old(store)@.contains_key(offer.k1@)
                &&& final(store)@ == old(store)@.insert(offer.k1@, false)
            },
            None => final(store)@ == old(store)@,
        },
        old(store)@ == Ledger::empty() ==> offered is Some,
        well_formed(final(store)@),
{
    match store.issue() {
        Some(k1) => Some(withdraw_offer(k1)),
        None => None,
    }
}

/// Handles a withdraw callback up to the node: redeems the token and
/// orders the payment request paid as it stands. The amount of the
/// request is not held against the limits on offer.
pub fn withdraw_callback(store: &mut TokenStore, params: &WithdrawRequest) -> (ordered: Result<
    PayOrder,
    FlowError,
>)
    ensures
        final(store)@ == redeemed(old(store)@, params.k1@),
        well_formed(final(store)@),
        match ordered {
            Ok(order) => redeem_outcome(old(store)@, params.k1@) is Ok && order.bolt11@
                == params.pr@,
            Err(error) => redeem_outcome(old(store)@, params.k1@) is Err && error
                == FlowError::InvalidToken,
        },
{
    match claim(store, params.k1.as_str()) {
        Err(error) => Err(error),
        Ok(_) => Ok(PayOrder { bolt11: params.pr.clone() }),
    }
}

/// Shapes the response to a withdraw callback from the node's answer.
/// A failure is reported as it is: the payment is not tried again.
pub fn withdraw_outcome(result: NodeActionResult) -> (answer: Result<WithdrawResponse, FlowError>)
    ensures
        match answer {
            Ok(response) => result == NodeActionResult::Success && response.status@ == STATUS_OK@,
            Err(error) => result == NodeActionResult::Failure && error
                == FlowError::UpstreamFailure,
        },
{
    match result {
        NodeActionResult::Success => Ok(WithdrawResponse { status: STATUS_OK.to_owned() }),
        NodeActionResult::Failure => Err(FlowError::UpstreamFailure),
    }
}

} // verus!
