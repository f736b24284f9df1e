//! The boundary with the payment node.
//!
//! The flows never talk to the node. A callback that passes its checks
//! yields an order; the caller carries the order out on the node and hands
//! the node's answer to the flow, which shapes the response.

use std::str::FromStr;
use vstd::prelude::*;

verus! {

/// Order to fund a channel towards `id`.
#[derive(Clone, Debug, PartialEq, Eq)]
pub struct FundChannelOrder {
    /// Public key of the counterparty, in hex; it parses as a public key.
    pub id: String,
    /// Amount to fund, in satoshis.
    pub amount_sat: u64,
    /// Whether the channel is announced to the network.
    pub announce: bool,
}

/// Order to pay an invoice.
#[derive(Clone, Debug, PartialEq, Eq)]
pub struct PayOrder {
    /// The payment request, as the client sent it.
    pub bolt11: String,
}

/// Order to check a signature over a message.
#[derive(Clone, Debug, PartialEq, Eq)]
pub struct CheckMessageOrder {
    pub message: String,
    /// The signature, as the client sent it.
    pub zbase: String,
    /// The claimed signer, in hex; it parses as a public key.
    pub pubkey: String,
}

/// The node's answer to an order to fund a channel or to pay.
#[derive(Clone, Copy, Debug, PartialEq, Eq, Structural)]
pub enum NodeActionResult {
    /// The node carried the order out.
    Success,
    /// The node refused, failed or could not be reached.
    Failure,
}

/// The node's answer to an order to check a signature.
#[derive(Clone, Copy, Debug, PartialEq, Eq, Structural)]
pub enum SignatureCheck {
    /// The signature is the claimed key's over the message.
    Verified,
    /// The node checked the signature and found it wrong.
    Rejected,
    /// The node failed or could not be reached.
    Failure,
}

/// Whether a text parses as a public key of the node's curve.
pub uninterp spec fn public_key_parses(text: Seq<char>) -> bool;

/// Calls `PublicKey::from_str` of `cln_rpc::primitives` (the key type of
/// secp256k1) and reports whether it succeeded. The parser reads hex of 33
/// or 65 bytes and asks the curve library whether they encode a point; it
/// depends on the text alone.
#[verifier::external_body]
pub(crate) fn parses_as_public_key(text: &str) -> (ok: bool)
    ensures
        ok == public_key_parses(text@),
{
    cln_rpc::primitives::PublicKey::from_str(text).is_ok()
}

} // verus!
