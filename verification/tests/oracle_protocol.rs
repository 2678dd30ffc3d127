use phone_a_friend::errors::{diagnostic_for, ErrorKind};
use phone_a_friend::oracle::{
    apply_validation, classify_send, poll_step, Conversation, OracleSession, PollEvent,
    PollOutcome, SendEvent, Update, ValidationEvent,
};

fn update(update_id: Option<i64>, reply_to_id: Option<i64>, text: Option<&str>) -> Update {
    Update { update_id, reply_to_id, text: text.map(|t| t.to_string()) }
}

#[test]
fn validation_happens_at_most_once_per_rewrite() {
    let mut session = OracleSession::new("credential".to_string(), 7, 60_000);
    let mut validation_calls: u32 = 0;
    for _ in 0..3 {
        if session.needs_validation() {
            validation_calls += 1;
            let r = apply_validation(&mut session, &ValidationEvent::Response(true));
            assert!(r.is_ok());
        }
    }
    assert_eq!(validation_calls, 1);
    assert!(session.credential_validated);
}

#[test]
fn validation_transport_failure_is_network_error() {
    let mut session = OracleSession::new("credential".to_string(), 7, 60_000);
    let r = apply_validation(&mut session, &ValidationEvent::TransportFailure);
    assert_eq!(r, Err(ErrorKind::NetworkError));
    assert!(session.needs_validation());
}

#[test]
fn validation_rejection_means_invalid_token() {
    let mut session = OracleSession::new("credential".to_string(), 7, 60_000);
    let r = apply_validation(&mut session, &ValidationEvent::Response(false));
    assert_eq!(r, Err(ErrorKind::TokenInvalid));
    assert!(session.needs_validation());
}

#[test]
fn send_outcomes_map_to_exactly_one_kind() {
    assert_eq!(
        classify_send(&SendEvent::TransportFailure),
        Err(ErrorKind::NetworkError)
    );
    assert_eq!(classify_send(&SendEvent::BadRequest), Err(ErrorKind::UnknownChatId));
    assert_eq!(classify_send(&SendEvent::Forbidden), Err(ErrorKind::ChatClosed));
    assert_eq!(
        classify_send(&SendEvent::OtherFailure),
        Err(ErrorKind::SendMessageError)
    );
    assert_eq!(classify_send(&SendEvent::BodyUndecodable), Err(ErrorKind::ApiError));
    assert_eq!(
        classify_send(&SendEvent::Sent(None)),
        Err(ErrorKind::UnknownError(
            "message identifier not found in successful response".to_string()
        ))
    );
    assert_eq!(classify_send(&SendEvent::Sent(Some(1234))), Ok(1234));
}

#[test]
fn poll_failures_map_to_exactly_one_kind() {
    let mut conv = Conversation::new(42);
    assert_eq!(
        poll_step(&mut conv, &PollEvent::TransportFailure, 0, 100),
        PollOutcome::Failed(ErrorKind::NetworkError)
    );
    assert_eq!(
        poll_step(&mut conv, &PollEvent::HttpFailure, 0, 100),
        PollOutcome::Failed(ErrorKind::UnknownError(
            "getUpdates returned non-200 status code".to_string()
        ))
    );
    assert_eq!(
        poll_step(&mut conv, &PollEvent::BodyUndecodable, 0, 100),
        PollOutcome::Failed(ErrorKind::ApiError)
    );
    assert_eq!(
        poll_step(&mut conv, &PollEvent::MissingResult, 0, 100),
        PollOutcome::Failed(ErrorKind::UnknownError(
            "getUpdates returned non-array result".to_string()
        ))
    );
    assert_eq!(conv.last_update_id, 0);
}

#[test]
fn timeout_after_elapsed_exceeds_budget_and_offset_stays_monotonic() {
    let mut conv = Conversation::new(42);
    let batch1 = PollEvent::Batch(vec![update(Some(5), Some(41), Some("unrelated"))]);
    assert_eq!(poll_step(&mut conv, &batch1, 10, 100), PollOutcome::KeepWaiting);
    assert_eq!(conv.last_update_id, 5);
    let batch2 = PollEvent::Batch(vec![update(Some(3), None, None)]);
    assert_eq!(poll_step(&mut conv, &batch2, 60, 100), PollOutcome::KeepWaiting);
    assert_eq!(conv.last_update_id, 5);
    let batch3 = PollEvent::Batch(vec![]);
    assert_eq!(
        poll_step(&mut conv, &batch3, 150, 100),
        PollOutcome::Failed(ErrorKind::Timeout)
    );
    assert_eq!(conv.last_update_id, 5);
}

#[test]
fn only_the_correlated_reply_is_accepted() {
    let mut conv = Conversation::new(42);
    let batch = PollEvent::Batch(vec![
        update(Some(1), Some(99), Some("reply to someone else")),
        update(Some(2), Some(42), None),
        update(Some(3), Some(42), Some("yes")),
        update(Some(4), Some(42), Some("a later reply")),
    ]);
    assert_eq!(
        poll_step(&mut conv, &batch, 10, 100),
        PollOutcome::Answer("yes".to_string())
    );
    assert_eq!(conv.last_update_id, 3);
}

#[test]
fn diagnostics_carry_the_fixed_messages() {
    let cases: Vec<(ErrorKind, &str)> = vec![
        (
            ErrorKind::NetworkError,
            "failed to phone a friend: error communicating with the network",
        ),
        (
            ErrorKind::TokenInvalid,
            "failed to phone a friend: the provided token could not be used",
        ),
        (ErrorKind::SendMessageError, "failed to phone a friend: error sending messages"),
        (
            ErrorKind::UnknownChatId,
            "failed to phone a friend: the chat_id is not known to the bot",
        ),
        (
            ErrorKind::ChatClosed,
            "failed to phone a friend: the user has blocked the chat with the bot",
        ),
        (
            ErrorKind::ApiError,
            "failed to phone a friend: some error with parsing the API response",
        ),
        (
            ErrorKind::Timeout,
            "failed to phone a friend: user did not provide an answer in time",
        ),
    ];
    for (kind, message) in cases {
        let d = diagnostic_for(&kind, 17);
        assert_eq!(d.message, message);
        assert_eq!(d.pos, 17);
    }
}

#[test]
fn unknown_error_diagnostic_keeps_the_reason_verbatim() {
    let d = diagnostic_for(&ErrorKind::UnknownError("boom".to_string()), 3);
    assert_eq!(d.message, "failed to phone a friend: unknown error: boom");
    assert_eq!(d.pos, 3);
}
