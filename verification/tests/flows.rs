use lnurl_project::auth::{auth_challenge, auth_offer, auth_order, auth_outcome, auth_response};
use lnurl_project::channel::{
    channel_callback, channel_offer, channel_order, channel_outcome, channel_request,
    CHANNEL_AMOUNT_SAT,
};
use lnurl_project::flow::{claim, FlowError, IP_PORT, PUBLIC_KEY, SERVER_URL};
use lnurl_project::node::{
    CheckMessageOrder, FundChannelOrder, NodeActionResult, PayOrder, SignatureCheck,
};
use lnurl_project::store::TokenStore;
use lnurl_project::token::is_well_formed;
use lnurl_project::withdraw::{
    withdraw_callback, withdraw_offer, withdraw_outcome, withdraw_request, MAX_WITHDRAWABLE,
    MIN_WITHDRAWABLE,
};
use lnurl_project::{
    AuthChallengeResponse, AuthRequest, AuthResponse, ChannelRequestResponse, ErrorResponse,
    InternalOpenChannelRequest, InternalOpenChannelResponse, OpenChannelRequest,
    OpenChannelResponse, WithdrawRequest, WithdrawRequestResponse, WithdrawResponse, AUTH_TAG,
    CHANNEL_REQUEST_TAG, WITHDRAW_REQUEST_TAG,
};

/// The generator point of the curve, compressed: a valid public key.
const VALID_KEY: &str = "0279be667ef9dcbbac55a06295ce870b07029bfcdb2dce28d959f2815b16f81798";

fn unknown_token() -> String {
    std::iter::repeat('0').take(64).collect()
}

fn channel_params(k1: &str, remote_id: &str, private: &str) -> OpenChannelRequest {
    OpenChannelRequest {
        k1: k1.to_string(),
        remote_id: remote_id.to_string(),
        private: private.to_string(),
    }
}

fn auth_params(k1: &str, sig: &str, key: &str) -> AuthRequest {
    AuthRequest { k1: k1.to_string(), sig: sig.to_string(), key: key.to_string() }
}

#[test]
fn tags_have_their_fixed_values() {
    assert_eq!(CHANNEL_REQUEST_TAG, "channelRequest");
    assert_eq!(WITHDRAW_REQUEST_TAG, "withdrawRequest");
    assert_eq!(AUTH_TAG, "login");
}

#[test]
fn error_kinds_map_to_http_statuses() {
    assert_eq!(FlowError::InvalidInput.status_code(), 400);
    assert_eq!(FlowError::InvalidToken.status_code(), 400);
    assert_eq!(FlowError::UpstreamFailure.status_code(), 502);
    assert_eq!(FlowError::Unauthorized.status_code(), 401);
}

#[test]
fn error_kinds_have_their_words() {
    assert_eq!(FlowError::InvalidInput.reason(), "invalid input");
    assert_eq!(FlowError::InvalidToken.reason(), "invalid or used k1");
    assert_eq!(FlowError::UpstreamFailure.reason(), "node failure");
    assert_eq!(FlowError::Unauthorized.reason(), "signature verification failed");
}

#[test]
fn refusals_carry_the_error_status_and_the_reason() {
    for error in [
        FlowError::InvalidInput,
        FlowError::InvalidToken,
        FlowError::UpstreamFailure,
        FlowError::Unauthorized,
    ] {
        assert_eq!(
            error.body(),
            ErrorResponse { status: "ERROR".to_string(), reason: error.reason().to_string() }
        );
    }
}

#[test]
fn claim_hides_why_a_token_is_invalid() {
    let mut store = TokenStore::new();
    assert_eq!(claim(&mut store, &unknown_token()), Err(FlowError::InvalidToken));
    let token = store.issue().unwrap();
    assert_eq!(claim(&mut store, &token), Ok(()));
    assert_eq!(claim(&mut store, &token), Err(FlowError::InvalidToken));
}

#[test]
fn channel_scenario_end_to_end() {
    let mut store = TokenStore::new();
    let offer = channel_request(&mut store).unwrap();
    assert_eq!(offer.tag, "channelRequest");
    assert_eq!(offer.k1.len(), 64);
    assert!(is_well_formed(&offer.k1));
    assert_eq!(offer.callback, "http://89.87.30.156:3000/channel-callback");
    assert_eq!(
        offer.uri,
        "029249978ef61cf264d2cf57589c96780bdd86266fdc065d6b54c48d2c9ea3ad40@89.87.30.156:9735"
    );
    assert_eq!(offer.uri, format!("{}@{}", PUBLIC_KEY, IP_PORT));
    assert_eq!(offer.callback, format!("{}/channel-callback", SERVER_URL));
    assert!(store.contains(&offer.k1));
    assert!(!store.is_used(&offer.k1));

    let params = channel_params(&offer.k1, VALID_KEY, "0");
    let order = channel_callback(&mut store, &params).unwrap();
    assert_eq!(
        order,
        FundChannelOrder { id: VALID_KEY.to_string(), amount_sat: 100_000, announce: true }
    );
    assert_eq!(
        channel_outcome(NodeActionResult::Success),
        Ok(OpenChannelResponse { status: "OK".to_string() })
    );
    assert!(store.is_used(&offer.k1));

    assert_eq!(channel_callback(&mut store, &params), Err(FlowError::InvalidToken));
}

#[test]
fn channel_offer_carries_the_token_it_is_given() {
    let offer = channel_offer(unknown_token());
    assert_eq!(
        offer,
        ChannelRequestResponse {
            tag: "channelRequest".to_string(),
            k1: unknown_token(),
            callback: "http://89.87.30.156:3000/channel-callback".to_string(),
            uri: format!("{}@{}", PUBLIC_KEY, IP_PORT),
        }
    );
}

#[test]
fn channel_amount_is_the_servers() {
    assert_eq!(CHANNEL_AMOUNT_SAT, 100_000);
    let order = channel_order(&channel_params("k", VALID_KEY, "1"), true).unwrap();
    assert_eq!(order.amount_sat, 100_000);
}

#[test]
fn channel_is_announced_unless_private_is_one() {
    for (private, announce) in [("1", false), ("0", true), ("", true), ("true", true), ("11", true), (" 1", true)] {
        let order = channel_order(&channel_params("k", VALID_KEY, private), true).unwrap();
        assert_eq!(order.announce, announce);
        assert_eq!(order.id, VALID_KEY);
    }
}

#[test]
fn channel_order_refuses_a_key_that_did_not_parse() {
    assert_eq!(
        channel_order(&channel_params("k", "nonsense", "0"), false),
        Err(FlowError::InvalidInput)
    );
}

#[test]
fn channel_callback_on_unknown_token_is_invalid_token() {
    let mut store = TokenStore::new();
    let params = channel_params(&unknown_token(), VALID_KEY, "0");
    assert_eq!(channel_callback(&mut store, &params), Err(FlowError::InvalidToken));
    assert!(!store.contains(&unknown_token()));
}

#[test]
fn channel_callback_with_malformed_key_is_invalid_input_and_spends_the_token() {
    for bad in ["", "zz", "0279be66", &VALID_KEY[..64], &VALID_KEY.replace("02", "05")] {
        let mut store = TokenStore::new();
        let offer = channel_request(&mut store).unwrap();
        let params = channel_params(&offer.k1, bad, "0");
        assert_eq!(channel_callback(&mut store, &params), Err(FlowError::InvalidInput));
        assert!(store.is_used(&offer.k1));
        let again = channel_params(&offer.k1, VALID_KEY, "0");
        assert_eq!(channel_callback(&mut store, &again), Err(FlowError::InvalidToken));
    }
}

#[test]
fn channel_callback_accepts_the_servers_own_key_and_uppercase_hex() {
    for key in [PUBLIC_KEY.to_string(), VALID_KEY.to_uppercase()] {
        let mut store = TokenStore::new();
        let offer = channel_request(&mut store).unwrap();
        let order = channel_callback(&mut store, &channel_params(&offer.k1, &key, "1")).unwrap();
        assert_eq!(order.id, key);
        assert!(!order.announce);
    }
}

#[test]
fn channel_failure_of_the_node_is_upstream_failure() {
    let mut store = TokenStore::new();
    let offer = channel_request(&mut store).unwrap();
    let params = channel_params(&offer.k1, VALID_KEY, "0");
    assert!(channel_callback(&mut store, &params).is_ok());
    assert_eq!(channel_outcome(NodeActionResult::Failure), Err(FlowError::UpstreamFailure));
    assert!(store.is_used(&offer.k1));
    assert_eq!(channel_callback(&mut store, &params), Err(FlowError::InvalidToken));
}

#[test]
fn withdraw_scenario_end_to_end() {
    let mut store = TokenStore::new();
    let offer = withdraw_request(&mut store).unwrap();
    assert_eq!(offer.tag, "withdrawRequest");
    assert_eq!(offer.callback, "http://89.87.30.156:3000/withdraw-callback");
    assert_eq!(offer.default_description, "LNURL withdraw");
    assert_eq!(offer.min_withdrawable, 1000);
    assert_eq!(offer.max_withdrawable, 1000000);
    assert!(is_well_formed(&offer.k1));

    let params = WithdrawRequest { k1: offer.k1.clone(), pr: "lntb500n1pexample".to_string() };
    let mut orders: Vec<PayOrder> = Vec::new();
    for _ in 0..3 {
        if let Ok(order) = withdraw_callback(&mut store, &params) {
            orders.push(order);
        }
    }
    assert_eq!(orders, vec![PayOrder { bolt11: "lntb500n1pexample".to_string() }]);
    assert_eq!(withdraw_callback(&mut store, &params), Err(FlowError::InvalidToken));
    assert_eq!(
        withdraw_outcome(NodeActionResult::Success),
        Ok(WithdrawResponse { status: "OK".to_string() })
    );
}

#[test]
fn withdraw_limits_are_the_servers() {
    assert_eq!(MIN_WITHDRAWABLE, 1_000);
    assert_eq!(MAX_WITHDRAWABLE, 1_000_000);
    assert_eq!(
        withdraw_offer(unknown_token()),
        WithdrawRequestResponse {
            tag: "withdrawRequest".to_string(),
            callback: "http://89.87.30.156:3000/withdraw-callback".to_string(),
            k1: unknown_token(),
            default_description: "LNURL withdraw".to_string(),
            min_withdrawable: 1_000,
            max_withdrawable: 1_000_000,
        }
    );
}

#[test]
fn withdraw_forwards_the_payment_request_unread() {
    let mut store = TokenStore::new();
    let offer = withdraw_request(&mut store).unwrap();
    let params = WithdrawRequest { k1: offer.k1, pr: String::new() };
    assert_eq!(withdraw_callback(&mut store, &params), Ok(PayOrder { bolt11: String::new() }));
}

#[test]
fn withdraw_callback_on_unknown_token_is_invalid_token() {
    let mut store = TokenStore::new();
    let params = WithdrawRequest { k1: unknown_token(), pr: "lntb1".to_string() };
    assert_eq!(withdraw_callback(&mut store, &params), Err(FlowError::InvalidToken));
}

#[test]
fn withdraw_failure_of_the_node_is_upstream_failure() {
    assert_eq!(withdraw_outcome(NodeActionResult::Failure), Err(FlowError::UpstreamFailure));
}

#[test]
fn auth_scenario_end_to_end() {
    let mut store = TokenStore::new();
    let challenge = auth_challenge(&mut store).unwrap();
    assert_eq!(challenge.tag, "login");
    assert_eq!(challenge.action, Some("login".to_string()));
    assert!(is_well_formed(&challenge.k1));

    let params = auth_params(&challenge.k1, "d9zbsig", VALID_KEY);
    let order = auth_response(&mut store, &params).unwrap();
    assert_eq!(
        order,
        CheckMessageOrder {
            message: challenge.k1.clone(),
            zbase: "d9zbsig".to_string(),
            pubkey: VALID_KEY.to_string(),
        }
    );
    assert_eq!(
        auth_outcome(SignatureCheck::Verified),
        Ok(AuthResponse { status: "OK".to_string(), event: Some("LOGGEDIN".to_string()) })
    );
    assert_eq!(auth_response(&mut store, &params), Err(FlowError::InvalidToken));
}

#[test]
fn auth_rejected_signature_is_unauthorized_and_spends_the_token() {
    let mut store = TokenStore::new();
    let challenge = auth_challenge(&mut store).unwrap();
    let params = auth_params(&challenge.k1, "wrong", VALID_KEY);
    assert!(auth_response(&mut store, &params).is_ok());
    assert_eq!(auth_outcome(SignatureCheck::Rejected), Err(FlowError::Unauthorized));
    assert!(store.is_used(&challenge.k1));
    assert_eq!(auth_response(&mut store, &params), Err(FlowError::InvalidToken));
}

#[test]
fn auth_failure_of_the_node_is_upstream_failure() {
    assert_eq!(auth_outcome(SignatureCheck::Failure), Err(FlowError::UpstreamFailure));
}

#[test]
fn auth_offer_carries_the_token_it_is_given() {
    assert_eq!(
        auth_offer(unknown_token()),
        AuthChallengeResponse {
            tag: "login".to_string(),
            k1: unknown_token(),
            action: Some("login".to_string()),
        }
    );
}

#[test]
fn auth_order_refuses_a_key_that_did_not_parse() {
    assert_eq!(auth_order(&auth_params("k", "s", "nonsense"), false), Err(FlowError::InvalidInput));
    assert_eq!(
        auth_order(&auth_params("k", "s", VALID_KEY), true),
        Ok(CheckMessageOrder {
            message: "k".to_string(),
            zbase: "s".to_string(),
            pubkey: VALID_KEY.to_string(),
        })
    );
}

#[test]
fn auth_response_with_malformed_key_is_invalid_input_and_spends_the_token() {
    let mut store = TokenStore::new();
    let challenge = auth_challenge(&mut store).unwrap();
    let params = auth_params(&challenge.k1, "sig", "not-a-key");
    assert_eq!(auth_response(&mut store, &params), Err(FlowError::InvalidInput));
    assert!(store.is_used(&challenge.k1));
}

#[test]
fn auth_response_on_unknown_token_is_invalid_token() {
    let mut store = TokenStore::new();
    let params = auth_params(&unknown_token(), "sig", VALID_KEY);
    assert_eq!(auth_response(&mut store, &params), Err(FlowError::InvalidToken));
}

#[test]
fn tokens_of_the_three_flows_share_one_store() {
    let mut store = TokenStore::new();
    let a = channel_request(&mut store).unwrap().k1;
    let b = withdraw_request(&mut store).unwrap().k1;
    let c = auth_challenge(&mut store).unwrap().k1;
    assert!(a != b && b != c && a != c);
    let params = WithdrawRequest { k1: a.clone(), pr: "lntb1".to_string() };
    assert!(withdraw_callback(&mut store, &params).is_ok());
    assert_eq!(
        channel_callback(&mut store, &channel_params(&a, VALID_KEY, "0")),
        Err(FlowError::InvalidToken)
    );
    assert!(!store.is_used(&b));
    assert!(!store.is_used(&c));
}

#[test]
fn internal_channel_records_hold_their_fields() {
    let request = InternalOpenChannelRequest {
        node_id: VALID_KEY.to_string(),
        host: "127.0.0.1".to_string(),
        port: 9735,
        satoshis: 100_000,
    };
    assert_eq!(request.clone(), request);
    let response = InternalOpenChannelResponse {
        mindepth: Some(3),
        channel_id: [7u8; 32],
        outnum: 1,
        tx: "0200".to_string(),
        txid: "ab".to_string(),
    };
    assert_eq!(response.channel_id.len(), 32);
    assert_eq!(response.clone(), response);
}
