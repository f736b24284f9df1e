//! Single-use challenge tokens and the three callback flows built on them:
//! channel requests, withdrawals and signature logins against a payment node.

pub mod auth;
pub mod channel;
pub mod client;
pub mod flow;
pub mod history;
pub mod messages;
pub mod node;
pub mod store;
pub mod text;
pub mod token;
pub mod withdraw;

pub use messages::{
    AuthChallengeResponse, AuthRequest, AuthResponse, ChannelRequestResponse, ErrorResponse,
    InternalOpenChannelRequest, InternalOpenChannelResponse, OpenChannelRequest,
    OpenChannelResponse, WithdrawRequest, WithdrawRequestResponse, WithdrawResponse, AUTH_TAG,
    CHANNEL_REQUEST_TAG, WITHDRAW_REQUEST_TAG,
};
