//! The channel request flow: the server offers to open a channel towards
//! the client's node, and opens it when the client calls back.

use crate::flow::{claim, FlowError, IP_PORT, PUBLIC_KEY, SERVER_URL, STATUS_OK};
use crate::messages::{
    ChannelRequestResponse, OpenChannelRequest, OpenChannelResponse, CHANNEL_REQUEST_TAG,
};
use crate::node::{parses_as_public_key, public_key_parses, FundChannelOrder, NodeActionResult};
use crate::store::{redeem_outcome, redeemed, well_formed, Ledger, TokenStore};
use crate::text::same_text;
use crate::token::is_token;
use vstd::prelude::*;
use vstd::string::StringExecFns;

verus! {

/// What every channel is funded with, in satoshis. The client has no say
/// in it.
pub const CHANNEL_AMOUNT_SAT: u64 = 100_000;

/// Path of the channel callback.
pub const CHANNEL_CALLBACK_PATH: &'static str = "/channel-callback";

/// Value of `private` that asks for an unannounced channel.
pub const PRIVATE_FLAG: &'static str = "1";

/// The offer that goes with token `k1`.
pub open spec fn is_channel_offer(offer: ChannelRequestResponse, k1: Seq<char>) -> bool {
    &&& offer.tag@ == CHANNEL_REQUEST_TAG@
    &&& offer.k1@ == k1
    &&& offer.callback@ == SERVER_URL@ + CHANNEL_CALLBACK_PATH@
    &&& offer.uri@ == PUBLIC_KEY@ + "@"@ + IP_PORT@
}

/// The order that `params` asks for.
pub open spec fn is_channel_order(order: FundChannelOrder, params: OpenChannelRequest) -> bool {
    &&& order.id@ == params.remote_id@
    &&& order.amount_sat == CHANNEL_AMOUNT_SAT
    &&& order.announce == (params.private@ != PRIVATE_FLAG@)
}

/// Describes the channel on offer under token `k1`.
pub fn channel_offer(k1: String) -> (offer: ChannelRequestResponse)
    ensures
        is_channel_offer(offer, k1@),
{
    ChannelRequestResponse {
        tag: CHANNEL_REQUEST_TAG.to_owned(),
        k1,
        callback: SERVER_URL.to_owned().concat(CHANNEL_CALLBACK_PATH),
        uri: PUBLIC_KEY.to_owned().concat("@").concat(IP_PORT),
    }
}

/// Issues a token and offers a channel under it. `None` where no fresh
/// token could be minted; the store is then unchanged.
pub fn channel_request(store: &mut TokenStore) -> (offered: Option<ChannelRequestResponse>)
    ensures
        match offered {
            Some(offer) => {
                &&& is_channel_offer(offer, offer.k1@)
                &&& is_token(offer.k1@)
                &&& !old(store)@.contains_key(offer.k1@)
                &&& final(store)@ == old(store)@.insert(offer.k1@, false)
            },
            None => final(store)@ == old(store)@,
        },
        old(store)@ == Ledger::empty() ==> offered is Some,
        well_formed(final(store)@),
{
    match store.issue() {
        Some(k1) => Some(channel_offer(k1)),
        None => None,
    }
}

/// Turns the parameters of a callback whose token was redeemed into an
/// order, given whether `remote_id` parsed as a public key.
pub fn channel_order(params: &OpenChannelRequest, key_parses: bool) -> (ordered: Result<
    FundChannelOrder,
    FlowError,
>)
    ensures
        match ordered {
            Ok(order) => key_parses && is_channel_order(order, *params),
            Err(error) => !key_parses && error == FlowError::InvalidInput,
        },
{
    if !key_parses {
        return Err(FlowError::InvalidInput);
    }
    Ok(
        FundChannelOrder {
            id: params.remote_id.clone(),
            amount_sat: CHANNEL_AMOUNT_SAT,
            announce: !same_text(params.private.as_str(), PRIVATE_FLAG),
        },
    )
}

/// Handles a channel callback up to the node: redeems the token, then
/// checks the counterparty's key. The token is spent even where the key
/// is refused.
pub fn channel_callback(store: &mut TokenStore, params: &OpenChannelRequest) -> (ordered: Result<
    FundChannelOrder,
    FlowError,
>)
    ensures
        final(store)@ == redeemed(old(store)@, params.k1@),
        well_formed(final(store)@),
        match ordered {
            Ok(order) => {
                &&& redeem_outcome(old(store)@, params.k1@) is Ok
                &&& public_key_parses(params.remote_id@)
                &&& is_channel_order(order, *params)
            },
            Err(error) => if redeem_outcome(old(store)@, params.k1@) is Err {
                error == FlowError::InvalidToken
            } else {
                !public_key_parses(params.remote_id@) && error == FlowError::InvalidInput
            },
        },
{
    match claim(store, params.k1.as_str()) {
        Err(error) => Err(error),
        Ok(_) => {
            let key_parses = parses_as_public_key(params.remote_id.as_str());
            channel_order(params, key_parses)
        },
    }
}

/// Shapes the response to a channel callback from the node's answer.
/// A failure is reported as it is: the order is not tried again.
pub fn channel_outcome(result: NodeActionResult) -> (answer: Result<OpenChannelResponse, FlowError>)
    ensures
        match answer {
            Ok(response) => result == NodeActionResult::Success && response.status@ == STATUS_OK@,
            Err(error) => result == NodeActionResult::Failure && error
                == FlowError::UpstreamFailure,
        },
{
    match result {
        NodeActionResult::Success => Ok(OpenChannelResponse { status: STATUS_OK.to_owned() }),
        NodeActionResult::Failure => Err(FlowError::UpstreamFailure),
    }
}

} // verus!
