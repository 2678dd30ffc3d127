//! The oracle client protocol, as pure step functions. A thin driver
//! performs the network calls and feeds each observed outcome back as
//! an event; every decision — credential caching, response
//! classification, reply correlation, offset bookkeeping and the
//! timeout — is taken here and verified.

use vstd::prelude::*;
use crate::errors::ErrorKind;
use crate::seqs::lemma_skip_one;

verus! {

/// The view of an error kind, with the catch-all reason as a character
/// sequence.
#[verifier::ext_equal]
pub enum ErrorKindV {
    NetworkError,
    TokenInvalid,
    SendMessageError,
    UnknownChatId,
    ChatClosed,
    ApiError,
    Timeout,
    UnknownError(Seq<char>),
}

impl View for ErrorKind {
    type V = ErrorKindV;

    open spec fn view(&self) -> ErrorKindV {
        match self {
            ErrorKind::NetworkError => ErrorKindV::NetworkError,
            ErrorKind::TokenInvalid => ErrorKindV::TokenInvalid,
            ErrorKind::SendMessageError => ErrorKindV::SendMessageError,
            ErrorKind::UnknownChatId => ErrorKindV::UnknownChatId,
            ErrorKind::ChatClosed => ErrorKindV::ChatClosed,
            ErrorKind::ApiError => ErrorKindV::ApiError,
            ErrorKind::Timeout => ErrorKindV::Timeout,
            ErrorKind::UnknownError(reason) => ErrorKindV::UnknownError(reason@),
        }
    }
}

/// One invocation's oracle configuration and discovered state. Created
/// once per rewrite, threaded by exclusive reference through every
/// call, discarded when the rewrite completes; only the validated flag
/// is ever mutated.
pub struct OracleSession {
    /// The credential the remote service is addressed with.
    pub credential: String,
    /// The destination the questions go to.
    pub chat_id: i64,
    /// Whether the credential has been validated in this session.
    pub credential_validated: bool,
    /// How long one question may wait for its reply, in milliseconds.
    pub response_timeout_ms: u64,
}

/// Whether the next question must begin with a credential check.
pub open spec fn spec_needs_validation(s: OracleSession) -> bool {
    !s.credential_validated
}

impl OracleSession {
    pub fn new(credential: String, chat_id: i64, response_timeout_ms: u64) -> (r: OracleSession)
        ensures
            r.credential == credential,
            r.chat_id == chat_id,
            !r.credential_validated,
            r.response_timeout_ms == response_timeout_ms,
    {
        OracleSession { credential, chat_id, credential_validated: false, response_timeout_ms }
    }

    /// Whether the next question must begin with a credential check.
    /// Once the flag is set, validation is skipped entirely.
    pub fn needs_validation(&self) -> (r: bool)
        ensures
            r == spec_needs_validation(*self),
    {
        !self.credential_validated
    }
}

/// What the driver observed when it asked the remote service who the
/// credential belongs to.
#[derive(Debug, PartialEq, Eq)]
pub enum ValidationEvent {
    /// The request never completed.
    TransportFailure,
    /// The request completed; the flag says whether the status was a
    /// success.
    Response(bool),
}

/// The session after a validation event is applied, and whether the
/// check passed. A session already validated is untouched and passes
/// without looking at the event.
pub open spec fn spec_apply_validation(s: OracleSession, ev: ValidationEvent) -> (
    OracleSession,
    bool,
) {
    if s.credential_validated {
        (s, true)
    } else {
        match ev {
            ValidationEvent::TransportFailure => (s, false),
            ValidationEvent::Response(ok) => (
                OracleSession { credential_validated: ok, ..s },
                ok,
            ),
        }
    }
}

/// Apply the outcome of the one-time credential check. A transport
/// failure is a network error; a rejection means the credential cannot
/// be used; a success is cached for the session's lifetime.
pub fn apply_validation(session: &mut OracleSession, ev: &ValidationEvent) -> (r: Result<
    (),
    ErrorKind,
>)
    ensures
        *final(session) == spec_apply_validation(*old(session), *ev).0,
        r is Ok == spec_apply_validation(*old(session), *ev).1,
        r matches Err(e) ==> e@ == (if *ev is TransportFailure {
            ErrorKindV::NetworkError
        } else {
            ErrorKindV::TokenInvalid
        }),
{
    if session.credential_validated {
        return Ok(());
    }
    match ev {
        ValidationEvent::TransportFailure => Err(ErrorKind::NetworkError),
        ValidationEvent::Response(ok) => {
            if *ok {
                session.credential_validated = true;
                Ok(())
            } else {
                Err(ErrorKind::TokenInvalid)
            }
        },
    }
}

/// What the driver observed when it dispatched the question with its
/// must-reply framing.
#[derive(Debug, PartialEq, Eq)]
pub enum SendEvent {
    /// The request never completed.
    TransportFailure,
    /// The service rejected the destination identifier.
    BadRequest,
    /// The destination has blocked the sender.
    Forbidden,
    /// Any other non-success status.
    OtherFailure,
    /// A success status whose body could not be decoded.
    BodyUndecodable,
    /// A success status, with the sent message's identifier if the body
    /// carried one.
    Sent(Option<i64>),
}

pub open spec fn msg_no_message_id() -> Seq<char> {
    "message identifier not found in successful response"@
}

/// The classification of a dispatch outcome: the sent message's
/// identifier, or exactly one error kind.
pub open spec fn spec_classify_send(ev: SendEvent) -> Result<i64, ErrorKindV> {
    match ev {
        SendEvent::TransportFailure => Err(ErrorKindV::NetworkError),
        SendEvent::BadRequest => Err(ErrorKindV::UnknownChatId),
        SendEvent::Forbidden => Err(ErrorKindV::ChatClosed),
        SendEvent::OtherFailure => Err(ErrorKindV::SendMessageError),
        SendEvent::BodyUndecodable => Err(ErrorKindV::ApiError),
        SendEvent::Sent(m) => match m {
            Some(id) => Ok(id),
            None => Err(ErrorKindV::UnknownError(msg_no_message_id())),
        },
    }
}

/// Classify what the question dispatch came back with.
pub fn classify_send(ev: &SendEvent) -> (r: Result<i64, ErrorKind>)
    ensures
        r matches Ok(id) ==> spec_classify_send(*ev) == Ok::<i64, ErrorKindV>(id),
        r matches Err(e) ==> spec_classify_send(*ev) == Err::<i64, ErrorKindV>(e@),
{
    match ev {
        SendEvent::TransportFailure => Err(ErrorKind::NetworkError),
        SendEvent::BadRequest => Err(ErrorKind::UnknownChatId),
        SendEvent::Forbidden => Err(ErrorKind::ChatClosed),
        SendEvent::OtherFailure => Err(ErrorKind::SendMessageError),
        SendEvent::BodyUndecodable => Err(ErrorKind::ApiError),
        SendEvent::Sent(m) => match m {
            Some(id) => Ok(*id),
            None => Err(ErrorKind::UnknownError(String::from_str(
                "message identifier not found in successful response",
            ))),
        },
    }
}

/// One question/answer round trip's state: created fresh per question,
/// never reused across questions.
pub struct Conversation {
    /// The identifier of the sent question message; replies must quote it.
    pub sent_message_id: i64,
    /// The highest update identifier seen so far; never decreases.
    pub last_update_id: i64,
}

impl Conversation {
    pub fn new(sent_message_id: i64) -> (r: Conversation)
        ensures
            r.sent_message_id == sent_message_id,
            r.last_update_id == 0,
    {
        Conversation { sent_message_id, last_update_id: 0 }
    }
}

/// One update from a poll batch, reduced to the fields the wait loop
/// reads.
#[derive(Debug, PartialEq, Eq)]
pub struct Update {
    /// The update's identifier, if it carried one.
    pub update_id: Option<i64>,
    /// The message identifier the update's message replies to, if any.
    pub reply_to_id: Option<i64>,
    /// The text of the update's message, if any.
    pub text: Option<String>,
}

/// The view of an update.
#[verifier::ext_equal]
pub struct UpdateV {
    pub update_id: Option<i64>,
    pub reply_to_id: Option<i64>,
    pub text: Option<Seq<char>>,
}

impl View for Update {
    type V = UpdateV;

    open spec fn view(&self) -> UpdateV {
        UpdateV {
            update_id: self.update_id,
            reply_to_id: self.reply_to_id,
            text: match self.text {
                Some(t) => Some(t@),
                None => None,
            },
        }
    }
}

/// The views of a poll batch.
pub open spec fn updates_view(s: Seq<Update>) -> Seq<UpdateV> {
    Seq::new(s.len(), |i: int| s[i]@)
}

/// What the driver observed on one long-poll fetch of new updates.
#[derive(Debug, PartialEq, Eq)]
pub enum PollEvent {
    /// The request never completed.
    TransportFailure,
    /// A non-success status.
    HttpFailure,
    /// A success status whose body could not be decoded.
    BodyUndecodable,
    /// A decodable body without the expected result array.
    MissingResult,
    /// The batch of updates the body carried.
    Batch(Vec<Update>),
}

/// What one poll step decides.
#[derive(Debug, PartialEq, Eq)]
pub enum PollOutcome {
    /// The first qualifying reply's text: the oracle's answer.
    Answer(String),
    /// The round trip failed with exactly this kind.
    Failed(ErrorKind),
    /// No qualifying reply yet and time remains: poll again.
    KeepWaiting,
}

pub open spec fn msg_poll_status() -> Seq<char> {
    "getUpdates returned non-200 status code"@
}

pub open spec fn msg_poll_result() -> Seq<char> {
    "getUpdates returned non-array result"@
}

/// Whether an update is the oracle's reply to the sent question: it
/// must quote the sent message and carry text.
pub open spec fn is_reply_to(u: UpdateV, sent: i64) -> bool {
    u.reply_to_id == Some(sent) && u.text is Some
}

/// The update offset after seeing one update identifier: the maximum,
/// so the offset never decreases even under out-of-order delivery.
pub open spec fn advance(last: i64, id: Option<i64>) -> i64 {
    match id {
        Some(v) => if v > last {
            v
        } else {
            last
        },
        None => last,
    }
}

/// The scan of one poll batch in order: the offset advances update by
/// update until the first qualifying reply, whose text is the answer;
/// updates after it are not looked at.
pub struct ScanV {
    pub offset: i64,
    pub answer: Option<Seq<char>>,
}

pub open spec fn scan(ups: Seq<UpdateV>, sent: i64, last: i64) -> ScanV
    decreases ups.len(),
{
    if ups.len() == 0 {
        ScanV { offset: last, answer: None }
    } else {
        let moved = advance(last, ups[0].update_id);
        if is_reply_to(ups[0], sent) {
            ScanV { offset: moved, answer: Some(ups[0].text.unwrap()) }
        } else {
            scan(ups.subrange(1, ups.len() as int), sent, moved)
        }
    }
}

/// Apply one long-poll outcome: return the answer on the first
/// qualifying reply, fail on a malformed response, or decide between
/// another round and the timeout. The offset in the conversation moves
/// exactly as the scan says, and never backwards.
#[verifier::loop_isolation(false)]
pub fn poll_step(conv: &mut Conversation, ev: &PollEvent, elapsed_ms: u64, timeout_ms: u64) -> (r:
    PollOutcome)
    ensures
        final(conv).sent_message_id == old(conv).sent_message_id,
        final(conv).last_update_id >= old(conv).last_update_id,
        match ev {
            PollEvent::TransportFailure => *final(conv) == *old(conv) && (r
                matches PollOutcome::Failed(e) && e@ == ErrorKindV::NetworkError),
            PollEvent::HttpFailure => *final(conv) == *old(conv) && (r
                matches PollOutcome::Failed(e) && e@ == ErrorKindV::UnknownError(
                msg_poll_status(),
            )),
            PollEvent::BodyUndecodable => *final(conv) == *old(conv) && (r
                matches PollOutcome::Failed(e) && e@ == ErrorKindV::ApiError),
            PollEvent::MissingResult => *final(conv) == *old(conv) && (r
                matches PollOutcome::Failed(e) && e@ == ErrorKindV::UnknownError(
                msg_poll_result(),
            )),
            PollEvent::Batch(ups) => {
                let sc = scan(
                    updates_view(ups@),
                    old(conv).sent_message_id,
                    old(conv).last_update_id,
                );
                &&& final(conv).last_update_id == sc.offset
                &&& match sc.answer {
                    Some(a) => r matches PollOutcome::Answer(t) && t@ == a,
                    None => if elapsed_ms > timeout_ms {
                        r matches PollOutcome::Failed(e) && e@ == ErrorKindV::Timeout
                    } else {
                        r is KeepWaiting
                    },
                }
            },
        },
{
    match ev {
        PollEvent::TransportFailure => PollOutcome::Failed(ErrorKind::NetworkError),
        PollEvent::HttpFailure => PollOutcome::Failed(ErrorKind::UnknownError(String::from_str(
            "getUpdates returned non-200 status code",
        ))),
        PollEvent::BodyUndecodable => PollOutcome::Failed(ErrorKind::ApiError),
        PollEvent::MissingResult => PollOutcome::Failed(ErrorKind::UnknownError(String::from_str(
            "getUpdates returned non-array result",
        ))),
        PollEvent::Batch(ups) => {
            let ghost uv = updates_view(ups@);
            let ghost last0 = conv.last_update_id;
            let sent = conv.sent_message_id;
            let mut j: usize = 0;
            proof {
                assert(uv.skip(0) =~= uv);
            }
            while j < ups.len()
                invariant
                    j <= ups@.len(),
                    conv.sent_message_id == sent,
                    conv.last_update_id >= last0,
                    uv == updates_view(ups@),
                    scan(uv.skip(j as int), sent, conv.last_update_id) == scan(uv, sent, last0),
                decreases ups@.len() - j as int,
            {
                proof {
                    lemma_skip_one(uv, j as int);
                }
                let ghost cur0 = conv.last_update_id;
                let u = &ups[j];
                if let Some(id) = u.update_id {
                    if id > conv.last_update_id {
                        conv.last_update_id = id;
                    }
                }
                proof {
                    assert(uv[j as int] == ups@[j as int]@);
                    assert(conv.last_update_id == advance(cur0, uv[j as int].update_id));
                }
                let replied = match &u.reply_to_id {
                    Some(rid) => *rid == sent,
                    None => false,
                };
                if replied {
                    if let Some(text) = &u.text {
                        proof {
                            assert(is_reply_to(uv[j as int], sent));
                            assert(scan(uv.skip(j as int), sent, cur0) == ScanV {
                                offset: conv.last_update_id,
                                answer: Some(uv[j as int].text.unwrap()),
                            });
                        }
                        return PollOutcome::Answer(text.clone());
                    }
                }
                proof {
                    assert(!is_reply_to(uv[j as int], sent));
                }
                j = j + 1;
            }
            proof {
                assert(uv.skip(j as int) =~= Seq::<UpdateV>::empty());
            }
            if elapsed_ms > timeout_ms {
                PollOutcome::Failed(ErrorKind::Timeout)
            } else {
                PollOutcome::KeepWaiting
            }
        },
    }
}

} // verus!
