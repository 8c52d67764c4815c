//! The per-connection authentication state machine: which step a connection
//! is at, what evidence it has presented, and the guarded transition
//! that decides the next challenge or the final verdict.

use vstd::prelude::*;

use crate::protocol::{AuthMessageKind, ErrorKind, Response, ResponseModel};

verus! {

/// Expected credentials and enabled optional factors. Fixed for the process
/// lifetime and shared read-only by every connection.
pub struct SessionOptions {
    pub username: String,
    pub password: String,
    pub mfa: bool,
    pub fingerprint: bool,
}

/// Mathematical image of `SessionOptions`.
pub struct OptionsModel {
    pub username: Seq<char>,
    pub password: Seq<char>,
    pub mfa: bool,
    pub fingerprint: bool,
}

impl View for SessionOptions {
    type V = OptionsModel;

    open spec fn view(&self) -> OptionsModel {
        OptionsModel {
            username: self.username@,
            password: self.password@,
            mfa: self.mfa,
            fingerprint: self.fingerprint,
        }
    }
}

impl Default for SessionOptions {
    /// Empty credentials; every optional factor disabled.
    fn default() -> (r: Self)
        ensures
            r@.username.len() == 0,
            r@.password.len() == 0,
            !r@.mfa,
            !r@.fingerprint,
    {
        SessionOptions { username: String::new(), password: String::new(), mfa: false, fingerprint: false }
    }
}

/// The step a connection is currently at. A connection only ever moves
/// forward through these (in declaration order) or stays put on a failed
/// check; it never regresses.
#[derive(Clone, Copy, Debug, PartialEq, Eq, Structural)]
pub enum State {
    Username,
    Password,
    Mfa,
    Fingerprint,
    Done,
}

impl State {
    /// Position of a step in the fixed order of progression.
    pub open spec fn index(self) -> nat {
        match self {
            State::Username => 0,
            State::Password => 1,
            State::Mfa => 2,
            State::Fingerprint => 3,
            State::Done => 4,
        }
    }
}

/// Per-connection record: the current step and one boolean of evidence per
/// credential step, each recording whether the most recently supplied input
/// for that step matched the expected value.
#[derive(Clone, Copy, Debug, PartialEq, Eq, Structural)]
pub struct Context {
    pub state: State,
    pub username: bool,
    pub password: bool,
    pub mfa: bool,
}

impl Default for Context {
    /// A fresh connection: at the `Username` step with no evidence recorded.
    fn default() -> (r: Self)
        ensures
            r == (Context { state: State::Username, username: false, password: false, mfa: false }),
    {
        Context { state: State::Username, username: false, password: false, mfa: false }
    }
}

/// The error sent whenever a step's gate refuses the evidence.
pub open spec fn auth_error() -> ResponseModel {
    ResponseModel::Error { error_type: ErrorKind::AuthError, description: "Invalid credentials"@ }
}

/// The response that announces arrival at step `s`: the challenge the step
/// asks for, or `Success` where nothing further is asked.
pub open spec fn arrival_response(s: State) -> ResponseModel {
    match s {
        State::Password => ResponseModel::AuthMessage {
            auth_message_type: AuthMessageKind::Secret,
            auth_message: "Password:"@,
        },
        State::Mfa => ResponseModel::AuthMessage {
            auth_message_type: AuthMessageKind::Visible,
            auth_message: "7 + 2 ="@,
        },
        State::Fingerprint => ResponseModel::AuthMessage {
            auth_message_type: AuthMessageKind::Info,
            auth_message: "Scan your fingerprint..."@,
        },
        State::Username => ResponseModel::Success,
        State::Done => ResponseModel::Success,
    }
}

impl Context {
    /// The current step's gate: whether the evidence recorded so far
    /// entitles the connection to move past that step. A step's gate depends
    /// only on the evidence booleans relevant up to it.
    pub open spec fn gate_ok(self) -> bool {
        match self.state {
            State::Username => true,
            State::Password => self.username && self.password,
            State::Mfa => self.mfa,
            State::Fingerprint => true,
            State::Done => true,
        }
    }

    /// The step reached from the current one once its gate passes,
    /// given which optional factors are enabled.
    pub open spec fn advanced_state(self, mfa: bool, fingerprint: bool) -> State {
        match self.state {
            State::Username => State::Password,
            State::Password => if mfa {
                State::Mfa
            } else if fingerprint {
                State::Fingerprint
            } else {
                State::Done
            },
            State::Mfa => if fingerprint {
                State::Fingerprint
            } else {
                State::Done
            },
            State::Fingerprint => State::Done,
            State::Done => State::Done,
        }
    }

    /// One gate evaluation and, when it passes, one transition: the context
    /// after the call and the response sent to the client. Where the
    /// evidence is refused, nothing changes and the credential error is sent, so the client may
    /// retry the same step; the evidence already recorded is kept.
    pub open spec fn spec_next(self, mfa: bool, fingerprint: bool) -> (Context, ResponseModel) {
        if !self.gate_ok() {
            (self, auth_error())
        } else {
            let advanced = self.advanced_state(mfa, fingerprint);
            (Context { state: advanced, ..self }, arrival_response(advanced))
        }
    }

    /// Hold the recorded evidence to the current step's gate; when it passes,
    /// advance one step and emit the challenge (or verdict) of the step now
    /// reached, else report invalid credentials and stay put.
    pub fn next(&mut self, opts: &SessionOptions) -> (r: Response)
        ensures
            (*final(self), r@) == old(self).spec_next(opts.mfa, opts.fingerprint),
    {
        if let Some(error) = self.check() {
            return error;
        }

        match self.state {
            State::Username => self.password_prompt(),
            State::Password => {
                if opts.mfa {
                    self.mfa_prompt()
                } else if opts.fingerprint {
                    self.fingerprint_prompt()
                } else {
                    self.success()
                }
            },
            State::Mfa => {
                if opts.fingerprint {
                    self.fingerprint_prompt()
                } else {
                    self.success()
                }
            },
            State::Fingerprint => self.success(),
            State::Done => Response::Success,
        }
    }

    /// The current step's gate as executable code: `None` when the
    /// evidence admits the step, otherwise the error to send.
    fn check(&self) -> (r: Option<Response>)
        ensures
            (r is None) <==> self.gate_ok(),
            r matches Some(e) ==> e@ == auth_error(),
    {
        let ok = match self.state {
            State::Username => true,
            State::Password => self.username && self.password,
            State::Mfa => self.mfa,
            State::Fingerprint => true,
            State::Done => true,
        };

        if ok {
            return None;
        }

        Some(Response::Error {
            error_type: ErrorKind::AuthError,
            description: String::from_str("Invalid credentials"),
        })
    }

    /// Move to the `Password` step and ask for the password.
    fn password_prompt(&mut self) -> (r: Response)
        ensures
            *final(self) == (Context { state: State::Password, ..*old(self) }),
            r@ == arrival_response(State::Password),
    {
        self.state = State::Password;

        Response::AuthMessage {
            auth_message_type: AuthMessageKind::Secret,
            auth_message: String::from_str("Password:"),
        }
    }

    /// Move to the `Mfa` step and pose the second-factor challenge.
    fn mfa_prompt(&mut self) -> (r: Response)
        ensures
            *final(self) == (Context { state: State::Mfa, ..*old(self) }),
            r@ == arrival_response(State::Mfa),
    {
        self.state = State::Mfa;

        Response::AuthMessage {
            auth_message_type: AuthMessageKind::Visible,
            auth_message: String::from_str("7 + 2 ="),
        }
    }

    /// Move to the `Fingerprint` step and ask for a scan.
    fn fingerprint_prompt(&mut self) -> (r: Response)
        ensures
            *final(self) == (Context { state: State::Fingerprint, ..*old(self) }),
            r@ == arrival_response(State::Fingerprint),
    {
        self.state = State::Fingerprint;

        Response::AuthMessage {
            auth_message_type: AuthMessageKind::Info,
            auth_message: String::from_str("Scan your fingerprint..."),
        }
    }

    /// Move to the terminal `Done` step and report success.
    fn success(&mut self) -> (r: Response)
        ensures
            *final(self) == (Context { state: State::Done, ..*old(self) }),
            r@ == ResponseModel::Success,
    {
        self.state = State::Done;

        Response::Success
    }
}

} // verus!
