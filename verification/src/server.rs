//! The per-connection dispatch: given one read outcome (a decoded request,
//! end of stream, or a decode failure), record the evidence it carries, run
//! the state machine, and say whether to reply or to close the connection.
//!
//! The read itself, the fingerprint scan and the write are performed by the
//! caller that owns the socket; this module only decides.

use vstd::prelude::*;

use crate::protocol::{ErrorKind, Request, RequestModel, Response, ResponseModel};
use crate::session::{Context, OptionsModel, SessionOptions, State};

verus! {

/// One outcome of trying to read a request from the connection.
#[derive(Debug, PartialEq)]
pub enum Event {
    /// A request was decoded.
    Message(Request),
    /// The peer closed the stream.
    Eof,
    /// The bytes read did not decode to a request.
    DecodeError,
}

/// Mathematical image of an `Event`.
pub enum EventModel {
    Message(RequestModel),
    Eof,
    DecodeError,
}

impl View for Event {
    type V = EventModel;

    open spec fn view(&self) -> EventModel {
        match self {
            Event::Message(request) => EventModel::Message(request@),
            Event::Eof => EventModel::Eof,
            Event::DecodeError => EventModel::DecodeError,
        }
    }
}

/// What the connection's owner must do after one event is handled.
#[derive(Debug, PartialEq)]
pub enum Step {
    /// Send `response`; when `scan` is set, attempt a fingerprint
    /// verification first (its outcome is deliberately not consulted).
    Reply { scan: bool, response: Response },
    /// Close the connection without sending anything.
    Close,
}

/// Mathematical image of a `Step`.
pub enum StepModel {
    Reply { scan: bool, response: ResponseModel },
    Close,
}

impl View for Step {
    type V = StepModel;

    open spec fn view(&self) -> StepModel {
        match self {
            Step::Reply { scan, response } => StepModel::Reply { scan: *scan, response: response@ },
            Step::Close => StepModel::Close,
        }
    }
}

/// The expected answer to the second-factor challenge.
pub open spec fn mfa_answer() -> Seq<char> {
    "9"@
}

/// The error sent when a request arrives that no state expects.
pub open spec fn comm_error() -> ResponseModel {
    ResponseModel::Error { error_type: ErrorKind::AuthError, description: "Communication error"@ }
}

/// How one event changes the connection: the context afterwards and the step
/// its owner must take. Evidence is recorded first (which field depends on
/// the current state), then the state machine's gate and transition
/// run; cancellation and read failures close the connection unanswered.
pub open spec fn spec_handle(ctx: Context, opts: OptionsModel, ev: EventModel) -> (Context, StepModel) {
    match ev {
        EventModel::Eof => (ctx, StepModel::Close),
        EventModel::DecodeError => (ctx, StepModel::Close),
        EventModel::Message(request) => match request {
            RequestModel::CreateSession { username } => {
                let recorded = Context { username: username == opts.username, ..ctx };
                let next = recorded.spec_next(opts.mfa, opts.fingerprint);
                (next.0, StepModel::Reply { scan: false, response: next.1 })
            },
            RequestModel::PostAuthMessageResponse { response } => match response {
                Some(text) => {
                    let recorded = if ctx.state == State::Password {
                        Context { password: text == opts.password, ..ctx }
                    } else if ctx.state == State::Mfa {
                        Context { mfa: text == mfa_answer(), ..ctx }
                    } else {
                        ctx
                    };
                    let next = recorded.spec_next(opts.mfa, opts.fingerprint);
                    (next.0, StepModel::Reply { scan: false, response: next.1 })
                },
                None => {
                    if ctx.state == State::Fingerprint {
                        let next = ctx.spec_next(opts.mfa, opts.fingerprint);
                        (next.0, StepModel::Reply { scan: true, response: next.1 })
                    } else {
                        (ctx, StepModel::Reply { scan: false, response: comm_error() })
                    }
                },
            },
            RequestModel::StartSession { .. } => (
                ctx,
                StepModel::Reply { scan: false, response: ResponseModel::Success },
            ),
            RequestModel::CancelSession => (ctx, StepModel::Close),
        },
    }
}

/// Handle one read outcome for the connection owning `context`: record the
/// evidence the event carries, run the state machine, and return the step to
/// take, exactly as `spec_handle` lays it down.
pub fn handle(context: &mut Context, opts: &SessionOptions, event: Event) -> (step: Step)
    ensures
        (*final(context), step@) == spec_handle(*old(context), opts@, event@),
{
    match event {
        Event::Eof => Step::Close,
        Event::DecodeError => Step::Close,
        Event::Message(request) => match request {
            Request::CreateSession { username } => {
                context.username = username == opts.username;
                let response = context.next(opts);
                Step::Reply { scan: false, response }
            },
            Request::PostAuthMessageResponse { response: Some(input) } => {
                match context.state {
                    State::Password => {
                        context.password = input == opts.password;
                    },
                    State::Mfa => {
                        let expected = String::from_str("9");
                        context.mfa = input == expected;
                    },
                    _ => {},
                }
                let response = context.next(opts);
                Step::Reply { scan: false, response }
            },
            Request::PostAuthMessageResponse { response: None } => match context.state {
                State::Fingerprint => {
                    let response = context.next(opts);
                    Step::Reply { scan: true, response }
                },
                _ => Step::Reply {
                    scan: false,
                    response: Response::Error {
                        error_type: ErrorKind::AuthError,
                        description: String::from_str("Communication error"),
                    },
                },
            },
            Request::StartSession { .. } => Step::Reply { scan: false, response: Response::Success },
            Request::CancelSession => Step::Close,
        },
    }
}

/// Law: a cancellation request closes the connection from any state, with no
/// response and no change of context.
pub proof fn lemma_cancel_closes(ctx: Context, opts: OptionsModel)
    ensures
        spec_handle(ctx, opts, EventModel::Message(RequestModel::CancelSession)) == (ctx, StepModel::Close),
{
}

/// Law: end of stream and a message that does not decode both close the
/// connection, with no response and no change of context.
pub proof fn lemma_read_failure_closes(ctx: Context, opts: OptionsModel)
    ensures
        spec_handle(ctx, opts, EventModel::Eof) == (ctx, StepModel::Close),
        spec_handle(ctx, opts, EventModel::DecodeError) == (ctx, StepModel::Close),
{
}

/// Law: the terminal state is idempotent: once at `Done`, any further
/// textual answer is met with `Success` and the context does not change.
pub proof fn lemma_done_idempotent(ctx: Context, opts: OptionsModel, text: Seq<char>)
    requires
        ctx.state == State::Done,
    ensures
        spec_handle(
            ctx,
            opts,
            EventModel::Message(RequestModel::PostAuthMessageResponse { response: Some(text) }),
        ) == (ctx, StepModel::Reply { scan: false, response: ResponseModel::Success }),
{
}

/// Law: at the opening step, a `CreateSession` request always answers with
/// the password prompt; whether the username matched is recorded, but it is
/// only examined later, when the `Password` step's gate runs.
pub proof fn lemma_create_session(ctx: Context, opts: OptionsModel, username: Seq<char>)
    requires
        ctx.state == State::Username,
    ensures
        spec_handle(ctx, opts, EventModel::Message(RequestModel::CreateSession { username })) == (
            Context { state: State::Password, username: username == opts.username, ..ctx },
            StepModel::Reply { scan: false, response: crate::session::arrival_response(State::Password) },
        ),
{
}

/// Law: a wrong password costs nothing but the attempt. It is answered with
/// the credential error, the context keeps every other piece of evidence and
/// stays at the `Password` step, and a following correct password succeeds:
/// the connection advances exactly as it would have on a first-try correct
/// password.
pub proof fn lemma_password_retry(ctx: Context, opts: OptionsModel, wrong: Seq<char>, right: Seq<char>)
    requires
        ctx.state == State::Password,
        ctx.username,
        wrong != opts.password,
        right == opts.password,
    ensures
        ({
            let first = spec_handle(
                ctx,
                opts,
                EventModel::Message(RequestModel::PostAuthMessageResponse { response: Some(wrong) }),
            );
            let second = spec_handle(
                first.0,
                opts,
                EventModel::Message(RequestModel::PostAuthMessageResponse { response: Some(right) }),
            );
            first == (
                Context { password: false, ..ctx },
                StepModel::Reply { scan: false, response: crate::session::auth_error() },
            ) && second == (
                (Context { password: true, ..ctx }).spec_next(opts.mfa, opts.fingerprint).0,
                StepModel::Reply {
                    scan: false,
                    response: (Context { password: true, ..ctx }).spec_next(opts.mfa, opts.fingerprint).1,
                },
            ) && (!opts.mfa && !opts.fingerprint ==> second == (
                Context { state: State::Done, password: true, ..ctx },
                StepModel::Reply { scan: false, response: ResponseModel::Success },
            ))
        }),
{
}

/// Law: a wrong answer to the second-factor challenge is answered with the
/// credential error and the context stays at the `Mfa` step; a following
/// correct answer advances the connection exactly as a first-try correct
/// answer would have.
pub proof fn lemma_mfa_retry(ctx: Context, opts: OptionsModel, wrong: Seq<char>)
    requires
        ctx.state == State::Mfa,
        wrong != mfa_answer(),
    ensures
        ({
            let first = spec_handle(
                ctx,
                opts,
                EventModel::Message(RequestModel::PostAuthMessageResponse { response: Some(wrong) }),
            );
            let second = spec_handle(
                first.0,
                opts,
                EventModel::Message(RequestModel::PostAuthMessageResponse { response: Some(mfa_answer()) }),
            );
            first == (
                Context { mfa: false, ..ctx },
                StepModel::Reply { scan: false, response: crate::session::auth_error() },
            ) && (!opts.fingerprint ==> second == (
                Context { state: State::Done, mfa: true, ..ctx },
                StepModel::Reply { scan: false, response: ResponseModel::Success },
            )) && (opts.fingerprint ==> second == (
                Context { state: State::Fingerprint, mfa: true, ..ctx },
                StepModel::Reply {
                    scan: false,
                    response: crate::session::arrival_response(State::Fingerprint),
                },
            ))
        }),
{
}

/// Law: a connection's step never regresses: whatever event arrives, the
/// step after handling it is at or past the step before it.
pub proof fn lemma_state_monotone(ctx: Context, opts: OptionsModel, ev: EventModel)
    ensures
        spec_handle(ctx, opts, ev).0.state.index() >= ctx.state.index(),
{
}

} // verus!
