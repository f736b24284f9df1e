//! What the three flows share: the server's policy, the error kinds, and
//! the redemption that opens every callback.

use crate::messages::ErrorResponse;
use crate::store::{redeem_outcome, redeemed, well_formed, RedeemError, TokenStore};
use vstd::prelude::*;

verus! {

/// Public key of the node the server fronts.
pub const PUBLIC_KEY: &'static str =
    "029249978ef61cf264d2cf57589c96780bdd86266fdc065d6b54c48d2c9ea3ad40";

/// Where that node listens, as `host:port`.
pub const IP_PORT: &'static str = "89.87.30.156:9735";

/// Base of the callback URLs handed to clients.
pub const SERVER_URL: &'static str = "http://89.87.30.156:3000";

/// Status text of every acknowledgement.
pub const STATUS_OK: &'static str = "OK";

/// Status text of every refusal.
pub const STATUS_ERROR: &'static str = "ERROR";

/// Why a callback was refused.
#[derive(Clone, Copy, Debug, PartialEq, Eq, Structural)]
pub enum FlowError {
    /// A parameter is malformed.
    InvalidInput,
    /// The token is unknown or was redeemed before; which of the two is
    /// not told.
    InvalidToken,
    /// The node failed to carry the order out.
    UpstreamFailure,
    /// The node checked the signature and found it wrong.
    Unauthorized,
}

/// The HTTP status that reports an error.
pub open spec fn status_of(error: FlowError) -> u16 {
    match error {
        FlowError::InvalidInput => 400,
        FlowError::InvalidToken => 400,
        FlowError::UpstreamFailure => 502,
        FlowError::Unauthorized => 401,
    }
}

/// The words that report an error to the client. They name the kind of
/// the error and nothing of what lies behind it.
pub open spec fn reason_of(error: FlowError) -> Seq<char> {
    match error {
        FlowError::InvalidInput => "invalid input"@,
        FlowError::InvalidToken => "invalid or used k1"@,
        FlowError::UpstreamFailure => "node failure"@,
        FlowError::Unauthorized => "signature verification failed"@,
    }
}

impl FlowError {
    /// The HTTP status that reports this error.
    pub fn status_code(self) -> (code: u16)
        ensures
            code == status_of(self),
    {
        match self {
            FlowError::InvalidInput => 400,
            FlowError::InvalidToken => 400,
            FlowError::UpstreamFailure => 502,
            FlowError::Unauthorized => 401,
        }
    }

    /// The words that report this error to the client.
    pub fn reason(self) -> (words: &'static str)
        ensures
            words@ == reason_of(self),
    {
        match self {
            FlowError::InvalidInput => "invalid input",
            FlowError::InvalidToken => "invalid or used k1",
            FlowError::UpstreamFailure => "node failure",
            FlowError::Unauthorized => "signature verification failed",
        }
    }

    /// The body that reports this error to the client.
    pub fn body(self) -> (response: ErrorResponse)
        ensures
            response.status@ == STATUS_ERROR@,
            response.reason@ == reason_of(self),
    {
        ErrorResponse { status: STATUS_ERROR.to_owned(), reason: self.reason().to_owned() }
    }
}

/// How a callback reports a redemption: both failures look alike.
pub open spec fn claim_outcome(outcome: Result<(), RedeemError>) -> Result<(), FlowError> {
    match outcome {
        Ok(_) => Ok(()),
        Err(_) => Err(FlowError::InvalidToken),
    }
}

/// Redeems the token of a callback.
pub fn claim(store: &mut TokenStore, k1: &str) -> (claimed: Result<(), FlowError>)
    ensures
        claimed == claim_outcome(redeem_outcome(old(store)@, k1@)),
        final(store)@ == redeemed(old(store)@, k1@),
        well_formed(final(store)@),
{
    match store.redeem(k1) {
        Ok(_) => Ok(()),
        Err(_) => Err(FlowError::InvalidToken),
    }
}

} // verus!
