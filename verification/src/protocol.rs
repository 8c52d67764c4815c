//! The request and response shapes of the broker's wire protocol, as the
//! decision logic sees them: plain decoded values, with a mathematical image
//! (`RequestModel`, `ResponseModel`) that the contracts speak of.

use vstd::prelude::*;

verus! {

/// Classification of a challenge message sent to the client.
#[derive(Clone, Copy, Debug, PartialEq, Eq, Structural)]
pub enum AuthMessageKind {
    /// The answer must not be echoed (a password).
    Secret,
    /// The answer may be echoed (an arithmetic challenge).
    Visible,
    /// No answer is expected; the text is informational.
    Info,
}

/// Category of an error reported to the client.
#[derive(Clone, Copy, Debug, PartialEq, Eq, Structural)]
pub enum ErrorKind {
    /// An authentication check failed or a request arrived out of turn.
    AuthError,
}

/// A request decoded from the client.
#[derive(Debug, PartialEq)]
pub enum Request {
    /// Open a session attempt for the named user.
    CreateSession { username: String },
    /// Answer the most recent challenge; `None` acknowledges a challenge
    /// that expects no text.
    PostAuthMessageResponse { response: Option<String> },
    /// Announce the command the client will run in the session.
    StartSession { cmd: Vec<String>, env: Vec<String> },
    /// Abandon the session attempt.
    CancelSession,
}

/// Mathematical image of a `Request`.
pub enum RequestModel {
    CreateSession { username: Seq<char> },
    PostAuthMessageResponse { response: Option<Seq<char>> },
    StartSession { cmd: Seq<Seq<char>>, env: Seq<Seq<char>> },
    CancelSession,
}

impl View for Request {
    type V = RequestModel;

    open spec fn view(&self) -> RequestModel {
        match self {
            Request::CreateSession { username } => RequestModel::CreateSession {
                username: username@,
            },
            Request::PostAuthMessageResponse { response } => RequestModel::PostAuthMessageResponse {
                response: match response {
                    Some(text) => Some(text@),
                    None => None,
                },
            },
            Request::StartSession { cmd, env } => RequestModel::StartSession {
                cmd: cmd.deep_view(),
                env: env.deep_view(),
            },
            Request::CancelSession => RequestModel::CancelSession,
        }
    }
}

/// A response to be encoded and sent to the client.
#[derive(Debug, PartialEq)]
pub enum Response {
    /// The step (or the whole attempt) succeeded.
    Success,
    /// The step failed; the connection stays open.
    Error { error_type: ErrorKind, description: String },
    /// A challenge the client must answer.
    AuthMessage { auth_message_type: AuthMessageKind, auth_message: String },
}

/// Mathematical image of a `Response`.
pub enum ResponseModel {
    Success,
    Error { error_type: ErrorKind, description: Seq<char> },
    AuthMessage { auth_message_type: AuthMessageKind, auth_message: Seq<char> },
}

impl View for Response {
    type V = ResponseModel;

    open spec fn view(&self) -> ResponseModel {
        match self {
            Response::Success => ResponseModel::Success,
            Response::Error { error_type, description } => ResponseModel::Error {
                error_type: *error_type,
                description: description@,
            },
            Response::AuthMessage { auth_message_type, auth_message } => ResponseModel::AuthMessage {
                auth_message_type: *auth_message_type,
                auth_message: auth_message@,
            },
        }
    }
}

} // verus!
