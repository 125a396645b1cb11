use mail_token::error::AuthError;
use mail_token::poller::{
    classify_error_code, reply_from, session_from_members, start_session, DeviceCodeSession, PollAction, PollReply, PollStatus,
    ProviderErrorCode,
};

fn session(interval: u64) -> DeviceCodeSession {
    DeviceCodeSession::new("dev-code".to_string(), interval, "Go to the page".to_string())
}

fn rejected(code: &str) -> PollReply {
    PollReply::Rejected(Some(code.to_string()))
}

#[test]
fn pending_twice_then_success_takes_three_requests() {
    let replies = vec![rejected("authorization_pending"), rejected("authorization_pending"), PollReply::Granted];
    let mut s = session(5);
    let mut requests = 0;
    let mut sleeps = Vec::new();
    let mut action = s.first_action();
    let mut next = 0;
    let outcome = loop {
        match action {
            PollAction::Request { delay_secs, .. } => {
                if requests > 0 {
                    sleeps.push(delay_secs);
                } else {
                    assert_eq!(delay_secs, 0);
                }
                requests += 1;
                action = s.on_reply(&replies[next]);
                next += 1;
            }
            other => break other,
        }
    };
    assert_eq!(requests, 3);
    assert_eq!(sleeps, vec![5, 5]);
    assert_eq!(outcome, PollAction::Complete);
    assert_eq!(s.status, PollStatus::Succeeded);
}

#[test]
fn declined_stops_at_once() {
    let mut s = session(5);
    let a = s.on_reply(&rejected("authorization_declined"));
    assert_eq!(a, PollAction::Abort(AuthError::AuthorizationDeclined));
    assert_eq!(s.status, PollStatus::Declined);
    // Nothing further is requested, whatever arrives later.
    let again = s.on_reply(&PollReply::Granted);
    assert_eq!(again, PollAction::Abort(AuthError::AuthorizationDeclined));
    assert_eq!(s.status, PollStatus::Declined);
}

#[test]
fn expired_token_stops_at_once() {
    let mut s = session(5);
    let a = s.on_reply(&rejected("expired_token"));
    assert_eq!(a, PollAction::Abort(AuthError::AuthorizationExpired));
    assert_eq!(s.status, PollStatus::Expired);
}

#[test]
fn unrecognized_code_is_a_protocol_error() {
    let mut s = session(5);
    let a = s.on_reply(&rejected("weird_error"));
    assert_eq!(a, PollAction::Abort(AuthError::ProviderProtocolError));
    assert_eq!(s.status, PollStatus::Malformed);
    assert_eq!(s.first_action(), PollAction::Abort(AuthError::ProviderProtocolError));
}

#[test]
fn rejection_without_code_is_a_protocol_error() {
    let mut s = session(3);
    let a = s.on_reply(&PollReply::Rejected(None));
    assert_eq!(a, PollAction::Abort(AuthError::ProviderProtocolError));
}

#[test]
fn bad_verification_code_keeps_polling_and_reminds() {
    let mut s = session(7);
    let a = s.on_reply(&rejected("bad_verification_code"));
    assert_eq!(a, PollAction::Request { delay_secs: 7, remind_user: true });
    assert_eq!(s.status, PollStatus::Pending);
    let b = s.on_reply(&rejected("authorization_pending"));
    assert_eq!(b, PollAction::Request { delay_secs: 7, remind_user: false });
}

#[test]
fn first_request_goes_out_without_delay() {
    let s = session(9);
    assert_eq!(s.first_action(), PollAction::Request { delay_secs: 0, remind_user: false });
    assert_eq!(s.device_code, "dev-code");
    assert_eq!(s.user_message, "Go to the page");
}

#[test]
fn error_codes_are_classified() {
    assert_eq!(classify_error_code("authorization_pending"), ProviderErrorCode::AuthorizationPending);
    assert_eq!(classify_error_code("authorization_declined"), ProviderErrorCode::AuthorizationDeclined);
    assert_eq!(classify_error_code("bad_verification_code"), ProviderErrorCode::BadVerificationCode);
    assert_eq!(classify_error_code("expired_token"), ProviderErrorCode::ExpiredToken);
    assert_eq!(classify_error_code("Expired_token"), ProviderErrorCode::Unrecognized);
    assert_eq!(classify_error_code(""), ProviderErrorCode::Unrecognized);
}

#[test]
fn replies_are_read_from_the_body() {
    let body: serde_json::Value =
        serde_json::from_str(r#"{"error":"authorization_pending","error_description":"wait"}"#).unwrap();
    match reply_from(false, &body) {
        PollReply::Rejected(Some(code)) => assert_eq!(code, "authorization_pending"),
        other => panic!("unexpected reply {other:?}"),
    }
    let no_code: serde_json::Value = serde_json::from_str(r#"{"error": 3}"#).unwrap();
    assert!(matches!(reply_from(false, &no_code), PollReply::Rejected(None)));
    assert!(matches!(reply_from(true, &body), PollReply::Granted));
}

#[test]
fn every_error_has_a_description() {
    assert_eq!(AuthError::AuthorizationDeclined.describe(), "the user declined to sign in");
    assert!(!AuthError::PersistenceError.describe().is_empty());
}

#[test]
fn session_starts_from_the_providers_reply() {
    let body: serde_json::Value = serde_json::from_str(
        r#"{"device_code":"DC-1","user_code":"ABC","interval":5,"expires_in":900,"message":"Enter ABC"}"#,
    )
    .unwrap();
    let s = start_session(&body).unwrap();
    assert_eq!(s.device_code, "DC-1");
    assert_eq!(s.poll_interval, 5);
    assert_eq!(s.user_message, "Enter ABC");
    assert_eq!(s.status, PollStatus::Pending);
}

#[test]
fn incomplete_start_reply_is_a_protocol_error() {
    let body: serde_json::Value =
        serde_json::from_str(r#"{"device_code":"DC-1","interval":"5","message":"m"}"#).unwrap();
    assert!(matches!(start_session(&body), Err(AuthError::ProviderProtocolError)));
    assert!(matches!(session_from_members(Some("d"), Some(1), None), Err(AuthError::ProviderProtocolError)));
    let s = session_from_members(Some("d"), Some(1), Some("m")).unwrap();
    assert_eq!(s.poll_interval, 1);
}
