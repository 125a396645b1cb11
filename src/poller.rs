use vstd::prelude::*;
use vstd::string::StringExecFns;

use crate::error::AuthError;
use crate::token::{error_code, error_code_of, json_member, opt_view, str_member, u64_member};

verus! {

/// Where a device-code session stands.
#[derive(PartialEq, Eq, Structural, Debug, Clone, Copy)]
pub enum PollStatus {
    Pending,
    Succeeded,
    Declined,
    Expired,
    Malformed,
}

/// The error codes the token endpoint uses while a device code is outstanding.
#[derive(PartialEq, Eq, Structural, Debug, Clone, Copy)]
pub enum ProviderErrorCode {
    AuthorizationPending,
    AuthorizationDeclined,
    BadVerificationCode,
    ExpiredToken,
    Unrecognized,
}

/// What one token request came back with: a granted token, or a rejection
/// carrying the provider's `error` code when the body had one.
#[derive(Debug, Clone)]
pub enum PollReply {
    Granted,
    Rejected(Option<String>),
}

/// What the caller must do next.
#[derive(PartialEq, Eq, Structural, Debug, Clone, Copy)]
pub enum PollAction {
    /// Wait `delay_secs` seconds, then send the token request again; when
    /// `remind_user` is set, show the sign-in message to the user once more.
    Request { delay_secs: u64, remind_user: bool },
    /// The token was granted: the reply's body holds it.
    Complete,
    /// The flow is over and failed.
    Abort(AuthError),
}

pub open spec fn error_code_kind(code: Seq<char>) -> ProviderErrorCode {
    if code == "authorization_pending"@ {
        ProviderErrorCode::AuthorizationPending
    } else if code == "authorization_declined"@ {
        ProviderErrorCode::AuthorizationDeclined
    } else if code == "bad_verification_code"@ {
        ProviderErrorCode::BadVerificationCode
    } else if code == "expired_token"@ {
        ProviderErrorCode::ExpiredToken
    } else {
        ProviderErrorCode::Unrecognized
    }
}

/// The status a pending session moves to on a reply.
pub open spec fn status_after(reply: PollReply) -> PollStatus {
    match reply {
        PollReply::Granted => PollStatus::Succeeded,
        PollReply::Rejected(None) => PollStatus::Malformed,
        PollReply::Rejected(Some(code)) => match error_code_kind(code@) {
            ProviderErrorCode::AuthorizationPending => PollStatus::Pending,
            ProviderErrorCode::BadVerificationCode => PollStatus::Pending,
            ProviderErrorCode::AuthorizationDeclined => PollStatus::Declined,
            ProviderErrorCode::ExpiredToken => PollStatus::Expired,
            ProviderErrorCode::Unrecognized => PollStatus::Malformed,
        },
    }
}

/// Whether a reply asks for the sign-in message to be shown again.
pub open spec fn asks_reminder(reply: PollReply) -> bool {
    match reply {
        PollReply::Rejected(Some(code)) => error_code_kind(code@)
            == ProviderErrorCode::BadVerificationCode,
        _ => false,
    }
}

/// The action that goes with a status.
pub open spec fn action_for(status: PollStatus, interval: u64, remind: bool) -> PollAction {
    match status {
        PollStatus::Pending => PollAction::Request { delay_secs: interval, remind_user: remind },
        PollStatus::Succeeded => PollAction::Complete,
        PollStatus::Declined => PollAction::Abort(AuthError::AuthorizationDeclined),
        PollStatus::Expired => PollAction::Abort(AuthError::AuthorizationExpired),
        PollStatus::Malformed => PollAction::Abort(AuthError::ProviderProtocolError),
    }
}

/// Reads a provider error code.
pub fn classify_error_code(code: &str) -> (r: ProviderErrorCode)
    ensures
        r == error_code_kind(code@),
{
    let c = String::from_str(code);
    if c == String::from_str("authorization_pending") {
        ProviderErrorCode::AuthorizationPending
    } else if c == String::from_str("authorization_declined") {
        ProviderErrorCode::AuthorizationDeclined
    } else if c == String::from_str("bad_verification_code") {
        ProviderErrorCode::BadVerificationCode
    } else if c == String::from_str("expired_token") {
        ProviderErrorCode::ExpiredToken
    } else {
        ProviderErrorCode::Unrecognized
    }
}

/// An interactive device-code authorization in progress.
#[derive(Debug, Clone)]
pub struct DeviceCodeSession {
    pub device_code: String,
    pub poll_interval: u64,
    pub user_message: String,
    pub status: PollStatus,
}

impl DeviceCodeSession {
    /// A pending session for the code, interval and message the provider
    /// handed out when the flow started.
    pub fn new(device_code: String, poll_interval: u64, user_message: String) -> (s: Self)
        ensures
            s.device_code == device_code,
            s.poll_interval == poll_interval,
            s.user_message == user_message,
            s.status == PollStatus::Pending,
    {
        DeviceCodeSession { device_code, poll_interval, user_message, status: PollStatus::Pending }
    }

    /// The first token request goes out at once.
    pub fn first_action(&self) -> (a: PollAction)
        ensures
            self.status == PollStatus::Pending ==> a == (PollAction::Request {
                delay_secs: 0,
                remind_user: false,
            }),
            self.status != PollStatus::Pending ==> a == action_for(
                self.status,
                self.poll_interval,
                false,
            ),
    {
        match self.status {
            PollStatus::Pending => PollAction::Request { delay_secs: 0, remind_user: false },
            _ => self.settled_action(),
        }
    }

    fn settled_action(&self) -> (a: PollAction)
        ensures
            a == action_for(self.status, self.poll_interval, false),
    {
        match self.status {
            PollStatus::Pending => PollAction::Request {
                delay_secs: self.poll_interval,
                remind_user: false,
            },
            PollStatus::Succeeded => PollAction::Complete,
            PollStatus::Declined => PollAction::Abort(AuthError::AuthorizationDeclined),
            PollStatus::Expired => PollAction::Abort(AuthError::AuthorizationExpired),
            PollStatus::Malformed => PollAction::Abort(AuthError::ProviderProtocolError),
        }
    }

    /// Takes the reply to the latest token request. A pending session moves
    /// on as the reply says: it keeps polling at the same interval on
    /// `authorization_pending` and on `bad_verification_code` (the latter
    /// also reminds the user), succeeds on a grant, and stops for good on
    /// `authorization_declined`, `expired_token`, any other code, or a
    /// rejection without a code. A session that already ended ignores the
    /// reply and repeats its outcome.
    pub fn on_reply(&mut self, reply: &PollReply) -> (a: PollAction)
        ensures
            final(self).device_code == old(self).device_code,
            final(self).poll_interval == old(self).poll_interval,
            final(self).user_message == old(self).user_message,
            old(self).status == PollStatus::Pending ==> {
                &&& final(self).status == status_after(*reply)
                &&& a == action_for(final(self).status, old(self).poll_interval, asks_reminder(*reply))
            },
            old(self).status != PollStatus::Pending ==> {
                &&& final(self).status == old(self).status
                &&& a == action_for(old(self).status, old(self).poll_interval, false)
            },
    {
        if self.status != PollStatus::Pending {
            return self.settled_action();
        }
        let mut remind = false;
        let next = match reply {
            PollReply::Granted => PollStatus::Succeeded,
            PollReply::Rejected(None) => PollStatus::Malformed,
            PollReply::Rejected(Some(code)) => match classify_error_code(code.as_str()) {
                ProviderErrorCode::AuthorizationPending => PollStatus::Pending,
                ProviderErrorCode::BadVerificationCode => {
                    remind = true;
                    PollStatus::Pending
                },
                ProviderErrorCode::AuthorizationDeclined => PollStatus::Declined,
                ProviderErrorCode::ExpiredToken => PollStatus::Expired,
                ProviderErrorCode::Unrecognized => PollStatus::Malformed,
            },
        };
        self.status = next;
        match next {
            PollStatus::Pending => PollAction::Request {
                delay_secs: self.poll_interval,
                remind_user: remind,
            },
            _ => self.settled_action(),
        }
    }
}

/// The reply to a token request, from whether the endpoint reported success
/// and the body it sent.
pub fn reply_from(succeeded: bool, body: &serde_json::Value) -> (r: PollReply)
    ensures
        succeeded ==> r is Granted,
        !succeeded ==> r is Rejected && opt_view(r->Rejected_0) == error_code_of(*body),
{
    if succeeded {
        PollReply::Granted
    } else {
        PollReply::Rejected(error_code(body))
    }
}

/// A pending session from the members of the provider's reply to the start of
/// the flow; a reply that lacks any of them breaches the protocol.
pub fn session_from_members(
    device_code: Option<&str>,
    interval: Option<u64>,
    message: Option<&str>,
) -> (r: Result<DeviceCodeSession, AuthError>)
    ensures
        r is Ok <==> (device_code is Some && interval is Some && message is Some),
        r matches Err(e) ==> e == AuthError::ProviderProtocolError,
        r is Ok ==> {
            &&& r->Ok_0.device_code@ == device_code->Some_0@
            &&& r->Ok_0.poll_interval == interval->Some_0
            &&& r->Ok_0.user_message@ == message->Some_0@
            &&& r->Ok_0.status == PollStatus::Pending
        },
{
    match (device_code, interval, message) {
        (Some(d), Some(i), Some(m)) => Ok(DeviceCodeSession::new(d.to_string(), i, m.to_string())),
        _ => Err(AuthError::ProviderProtocolError),
    }
}

/// The session described by the body of the provider's reply to the start of
/// the flow: its `device_code`, `interval` and `message` members.
pub fn start_session(body: &serde_json::Value) -> (r: Result<DeviceCodeSession, AuthError>)
    ensures
        r is Ok <==> (str_member(*body, "device_code"@) is Some && u64_member(
            *body,
            "interval"@,
        ) is Some && str_member(*body, "message"@) is Some),
        r matches Err(e) ==> e == AuthError::ProviderProtocolError,
        r is Ok ==> {
            &&& Some(r->Ok_0.device_code@) == str_member(*body, "device_code"@)
            &&& Some(r->Ok_0.poll_interval) == u64_member(*body, "interval"@)
            &&& Some(r->Ok_0.user_message@) == str_member(*body, "message"@)
            &&& r->Ok_0.status == PollStatus::Pending
        },
{
    let device_code = match json_member(body, "device_code") {
        Some(v) => v.as_str(),
        None => None,
    };
    let interval = match json_member(body, "interval") {
        Some(v) => v.as_u64(),
        None => None,
    };
    let message = match json_member(body, "message") {
        Some(v) => v.as_str(),
        None => None,
    };
    session_from_members(device_code, interval, message)
}

/// Once a session has ended, in success or in failure, it asks for no
/// further token request, whatever reply it is handed.
pub proof fn lemma_ended_session_requests_nothing(s: DeviceCodeSession, reply: PollReply)
    requires
        s.status != PollStatus::Pending,
    ensures
        !(action_for(s.status, s.poll_interval, false) is Request),
        s.status != PollStatus::Succeeded ==> action_for(s.status, s.poll_interval, false) is Abort,
{
}

/// A reply that carries `authorization_declined`, `expired_token` or a code
/// the provider does not document ends a pending session at once with the
/// matching failure, and asks for no further request.
pub proof fn lemma_terminal_codes_abort(code: String, interval: u64)
    requires
        error_code_kind(code@) == ProviderErrorCode::AuthorizationDeclined
            || error_code_kind(code@) == ProviderErrorCode::ExpiredToken
            || error_code_kind(code@) == ProviderErrorCode::Unrecognized,
    ensures
        status_after(PollReply::Rejected(Some(code))) != PollStatus::Pending,
        action_for(
            status_after(PollReply::Rejected(Some(code))),
            interval,
            asks_reminder(PollReply::Rejected(Some(code))),
        ) == PollAction::Abort(
            if error_code_kind(code@) == ProviderErrorCode::AuthorizationDeclined {
                AuthError::AuthorizationDeclined
            } else if error_code_kind(code@) == ProviderErrorCode::ExpiredToken {
                AuthError::AuthorizationExpired
            } else {
                AuthError::ProviderProtocolError
            },
        ),
{
}

} // verus!
