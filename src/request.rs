use vstd::prelude::*;
use vstd::string::*;

use crate::error::Error;
use crate::session::SessionToken;

verus! {

/// The fields of the server's JSON envelope that classification reads. Each
/// present field holds its text: the string itself for a JSON string, the
/// JSON text of the value otherwise.
pub struct Envelope {
    pub api_error_message: Option<String>,
    pub api_server_version: Option<String>,
    pub api_response: Option<String>,
}

/// An HTTP response as the request machine sees it.
pub struct ServerReply {
    /// HTTP status code.
    pub status: u16,
    /// Value of the session cookie, when the response set it.
    pub session_cookie: Option<String>,
    /// The raw body text.
    pub body: String,
    /// The body read as a JSON object envelope, when it is one.
    pub envelope: Option<Envelope>,
}

/// What happened to one send.
pub enum SendOutcome {
    /// The connection could not be established; nothing reached the server.
    ConnectFailed,
    /// Any other failure that produced no HTTP response, with the error to
    /// report for it.
    SendFailed(Error),
    /// The server answered.
    Replied(ServerReply),
}

/// What the request machine decides after one send.
pub enum Step {
    /// The request succeeded: hand the payload to the caller.
    Success,
    /// Send again.
    Retry,
    /// The session is gone: log in again, then send again.
    Reauthenticate,
    /// Stop with this error.
    Fail(Error),
}

/// The messages with which the server reports a session that must be renewed.
pub open spec fn is_session_message(m: Seq<char>) -> bool {
    ||| m == "Session rejected"@
    ||| m == "Session not found"@
    ||| m == "Session expired"@
    ||| m == "Invalid source IP for this session"@
    ||| m == "Invalid user agent for this session"@
}

pub open spec fn is_success_status(status: u16) -> bool {
    200 <= status && status <= 299
}

/// The terminal error built from a parsed envelope: its message (or a fixed
/// fallback), the status, and the server's version and response details.
pub open spec fn is_envelope_error(e: Error, status: u16, env: Envelope) -> bool {
    match e {
        Error::Client { message, status: s, api_version, api_response } => {
            &&& message@ == (match env.api_error_message {
                Some(m) => m@,
                None => "unknown error"@,
            })
            &&& s == status as u32
            &&& api_version == env.api_server_version
            &&& api_response == env.api_response
        },
        _ => false,
    }
}

/// The decision for a response with this status, body and envelope: success
/// on 2xx; on 401 a fresh login when the envelope's message names a lost
/// session; every other status (502, 503 and 504 included) ends the request
/// with an error taken from the envelope when the body is one, else from the
/// body text.
pub open spec fn is_response_step(status: u16, body: Seq<char>, envelope: Option<Envelope>, step: Step) -> bool {
    if is_success_status(status) {
        step is Success
    } else if status == 401 {
        if envelope is Some && envelope->0.api_error_message is Some {
            let m = envelope->0.api_error_message->0;
            if is_session_message(m@) {
                step is Reauthenticate
            } else {
                step matches Step::Fail(e) && is_envelope_error(e, status, envelope->0)
            }
        } else {
            step matches Step::Fail(e) && e.is_client_error(body, 401)
        }
    } else {
        match envelope {
            Some(env) => step matches Step::Fail(e) && is_envelope_error(e, status, env),
            None => step matches Step::Fail(e) && e.is_client_error(body, status as u32),
        }
    }
}

pub(crate) fn text_eq(a: &str, b: &str) -> (r: bool)
    ensures
        r == (a@ == b@),
{
    let x: String = a.to_owned();
    let y: String = b.to_owned();
    x == y
}

/// The address of `path` on `server`: the two joined by a slash.
pub fn request_url(server: &str, path: &str) -> (r: String)
    ensures
        r@ == server@ + "/"@ + path@,
{
    let mut url: String = server.to_owned();
    url.append("/");
    url.append(path);
    url
}

/// Whether a 401 message says that the session must be renewed.
pub fn is_session_error(error: &str) -> (r: bool)
    ensures
        r == is_session_message(error@),
{
    text_eq(error, "Session rejected") || text_eq(error, "Session not found") || text_eq(
        error,
        "Session expired",
    ) || text_eq(error, "Invalid source IP for this session") || text_eq(
        error,
        "Invalid user agent for this session",
    )
}

fn envelope_error(status: u16, env: Envelope) -> (e: Error)
    ensures
        is_envelope_error(e, status, env),
{
    let Envelope { api_error_message, api_server_version, api_response } = env;
    let message = match api_error_message {
        Some(m) => m,
        None => "unknown error".to_owned(),
    };
    Error::Client { message, status: status as u32, api_version: api_server_version, api_response }
}

/// Classify a response that is not a transport failure.
pub fn classify_response(status: u16, body: String, envelope: Option<Envelope>) -> (r: Step)
    ensures
        is_response_step(status, body@, envelope, r),
{
    if 200 <= status && status <= 299 {
        return Step::Success;
    }
    if status == 401 {
        match envelope {
            Some(env) => {
                let is_session = match &env.api_error_message {
                    Some(m) => Some(is_session_error(m.as_str())),
                    None => None,
                };
                match is_session {
                    Some(true) => Step::Reauthenticate,
                    Some(false) => Step::Fail(envelope_error(status, env)),
                    None => Step::Fail(Error::client_error(body, 401)),
                }
            },
            None => Step::Fail(Error::client_error(body, 401)),
        }
    } else {
        match envelope {
            Some(env) => Step::Fail(envelope_error(status, env)),
            None => Step::Fail(Error::client_error(body, status as u32)),
        }
    }
}

/// Decide what follows one send. Whenever the server answered with the
/// session cookie, whatever the status, the session token takes its value.
pub fn handle_outcome(session: &mut SessionToken, outcome: SendOutcome) -> (r: Step)
    ensures
        match outcome {
            SendOutcome::ConnectFailed => r is Retry && final(session)@ == old(session)@,
            SendOutcome::SendFailed(e) => r == Step::Fail(e) && final(session)@ == old(session)@,
            SendOutcome::Replied(reply) => {
                &&& is_response_step(reply.status, reply.body@, reply.envelope, r)
                &&& final(session)@ == match reply.session_cookie {
                    Some(c) => Some(c@),
                    None => old(session)@,
                }
            },
        },
{
    match outcome {
        SendOutcome::ConnectFailed => Step::Retry,
        SendOutcome::SendFailed(e) => Step::Fail(e),
        SendOutcome::Replied(reply) => {
            let ServerReply { status, session_cookie, body, envelope } = reply;
            if let Some(c) = session_cookie {
                session.replace(c);
            }
            classify_response(status, body, envelope)
        },
    }
}

} // verus!
