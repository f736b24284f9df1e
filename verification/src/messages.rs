//! The records exchanged with clients, one per request or response.

use vstd::prelude::*;

verus! {

/// Tag of a channel request offer.
pub const CHANNEL_REQUEST_TAG: &'static str = "channelRequest";

/// Tag of a withdraw request offer.
pub const WITHDRAW_REQUEST_TAG: &'static str = "withdrawRequest";

/// Tag of a login challenge.
pub const AUTH_TAG: &'static str = "login";

/// Offer to open a channel towards the client.
#[derive(Clone, Debug, PartialEq, Eq)]
pub struct ChannelRequestResponse {
    pub tag: String,
    pub k1: String,
    pub callback: String,
    /// The node to connect to, as `pubkey@host:port`.
    pub uri: String,
}

/// What the client sends back to have the channel opened.
#[derive(Clone, Debug, PartialEq, Eq)]
pub struct OpenChannelRequest {
    pub k1: String,
    /// Public key of the client's node, in hex.
    pub remote_id: String,
    /// `"1"` asks for an unannounced channel.
    pub private: String,
}

/// Acknowledgement of a channel callback.
#[derive(Clone, Debug, PartialEq, Eq)]
pub struct OpenChannelResponse {
    pub status: String,
}

/// A request to connect to a node and fund a channel with it.
#[derive(Clone, Debug, PartialEq, Eq)]
pub struct InternalOpenChannelRequest {
    pub node_id: String,
    pub host: String,
    pub port: u16,
    pub satoshis: u64,
}

/// What the node reports of a channel it funded.
#[derive(Clone, Debug, PartialEq, Eq)]
pub struct InternalOpenChannelResponse {
    pub mindepth: Option<u32>,
    /// The 32 bytes of the channel id.
    pub channel_id: [u8; 32],
    pub outnum: u32,
    pub tx: String,
    pub txid: String,
}

/// Offer to pay an invoice of the client's.
#[derive(Clone, Debug, PartialEq, Eq)]
pub struct WithdrawRequestResponse {
    pub tag: String,
    pub callback: String,
    pub k1: String,
    pub default_description: String,
    /// In millisatoshis.
    pub min_withdrawable: u64,
    /// In millisatoshis.
    pub max_withdrawable: u64,
}

/// What the client sends back to be paid.
#[derive(Clone, Debug, PartialEq, Eq)]
pub struct WithdrawRequest {
    pub k1: String,
    /// The payment request to pay.
    pub pr: String,
}

/// Acknowledgement of a withdraw callback.
#[derive(Clone, Debug, PartialEq, Eq)]
pub struct WithdrawResponse {
    pub status: String,
}

/// A login challenge.
#[derive(Clone, Debug, PartialEq, Eq)]
pub struct AuthChallengeResponse {
    pub tag: String,
    pub k1: String,
    /// One of `register`, `login`, `link`, `auth`.
    pub action: Option<String>,
}

/// The client's answer to a login challenge.
#[derive(Clone, Debug, PartialEq, Eq)]
pub struct AuthRequest {
    pub k1: String,
    /// Signature over `k1`.
    pub sig: String,
    /// The public key the client claims, in hex.
    pub key: String,
}

/// Acknowledgement of a login.
#[derive(Clone, Debug, PartialEq, Eq)]
pub struct AuthResponse {
    pub status: String,
    /// One of `REGISTERED`, `LOGGEDIN`, `LINKED`, `AUTHED`.
    pub event: Option<String>,
}

/// Body of every refusal.
#[derive(Clone, Debug, PartialEq, Eq)]
pub struct ErrorResponse {
    pub status: String,
    /// Why the request was refused, in words fit for the client.
    pub reason: String,
}

} // verus!
