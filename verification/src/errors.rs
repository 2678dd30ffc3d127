//! The closed failure taxonomy of the oracle client, and its fixed
//! translation into positioned diagnostics.

use vstd::prelude::*;

verus! {

/// Every way a question to the oracle can fail. The rewriter never
/// invents further kinds; it only translates each into a diagnostic.
#[derive(Debug, PartialEq, Eq)]
pub enum ErrorKind {
    /// A transport failure while talking to the remote service.
    NetworkError,
    /// The credential was rejected by the remote service.
    TokenInvalid,
    /// Sending the question failed for a reason other than the two below.
    SendMessageError,
    /// The destination identifier is unknown to the remote service.
    UnknownChatId,
    /// The destination has blocked the sender.
    ChatClosed,
    /// A response body could not be decoded as expected.
    ApiError,
    /// No qualifying reply arrived within the configured timeout.
    Timeout,
    /// Any other failure, with its reason kept verbatim.
    UnknownError(String),
}

/// A terminal error: one human-readable message tied to one source
/// position, returned in place of a rewritten tree.
#[derive(Debug, PartialEq, Eq)]
pub struct Diagnostic {
    pub message: String,
    pub pos: u64,
}

pub open spec fn msg_network_error() -> Seq<char> {
    "failed to phone a friend: error communicating with the network"@
}

pub open spec fn msg_token_invalid() -> Seq<char> {
    "failed to phone a friend: the provided token could not be used"@
}

pub open spec fn msg_send_message_error() -> Seq<char> {
    "failed to phone a friend: error sending messages"@
}

pub open spec fn msg_unknown_chat_id() -> Seq<char> {
    "failed to phone a friend: the chat_id is not known to the bot"@
}

pub open spec fn msg_chat_closed() -> Seq<char> {
    "failed to phone a friend: the user has blocked the chat with the bot"@
}

pub open spec fn msg_api_error() -> Seq<char> {
    "failed to phone a friend: some error with parsing the API response"@
}

pub open spec fn msg_timeout() -> Seq<char> {
    "failed to phone a friend: user did not provide an answer in time"@
}

pub open spec fn msg_unknown_error(reason: Seq<char>) -> Seq<char> {
    "failed to phone a friend: unknown error: "@ + reason
}

/// The fixed mapping from an error kind to the diagnostic message shown
/// to the user. Only the catch-all kind carries transport detail, whose
/// reason is included verbatim.
pub open spec fn spec_message_for(kind: ErrorKind) -> Seq<char> {
    match kind {
        ErrorKind::NetworkError => msg_network_error(),
        ErrorKind::TokenInvalid => msg_token_invalid(),
        ErrorKind::SendMessageError => msg_send_message_error(),
        ErrorKind::UnknownChatId => msg_unknown_chat_id(),
        ErrorKind::ChatClosed => msg_chat_closed(),
        ErrorKind::ApiError => msg_api_error(),
        ErrorKind::Timeout => msg_timeout(),
        ErrorKind::UnknownError(reason) => msg_unknown_error(reason@),
    }
}

/// Translate an oracle failure into the diagnostic that aborts the
/// rewrite, positioned at the marker's argument group.
pub fn diagnostic_for(kind: &ErrorKind, pos: u64) -> (r: Diagnostic)
    ensures
        r.message@ == spec_message_for(*kind),
        r.pos == pos,
{
    let message: String = match kind {
        ErrorKind::NetworkError => String::from_str(
            "failed to phone a friend: error communicating with the network",
        ),
        ErrorKind::TokenInvalid => String::from_str(
            "failed to phone a friend: the provided token could not be used",
        ),
        ErrorKind::SendMessageError => String::from_str(
            "failed to phone a friend: error sending messages",
        ),
        ErrorKind::UnknownChatId => String::from_str(
            "failed to phone a friend: the chat_id is not known to the bot",
        ),
        ErrorKind::ChatClosed => String::from_str(
            "failed to phone a friend: the user has blocked the chat with the bot",
        ),
        ErrorKind::ApiError => String::from_str(
            "failed to phone a friend: some error with parsing the API response",
        ),
        ErrorKind::Timeout => String::from_str(
            "failed to phone a friend: user did not provide an answer in time",
        ),
        ErrorKind::UnknownError(reason) => String::from_str(
            "failed to phone a friend: unknown error: ",
        ).concat(reason.as_str()),
    };
    Diagnostic { message, pos }
}

} // verus!
