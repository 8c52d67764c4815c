use libgreetd_stub::protocol::{AuthMessageKind, ErrorKind, Request, Response};
use libgreetd_stub::server::{handle, Event, Step};
use libgreetd_stub::session::{Context, SessionOptions, State};

fn options(mfa: bool, fingerprint: bool) -> SessionOptions {
    SessionOptions {
        username: "alice".to_string(),
        password: "correct-pw".to_string(),
        mfa,
        fingerprint,
    }
}

fn create_session(username: &str) -> Event {
    Event::Message(Request::CreateSession { username: username.to_string() })
}

fn answer(text: &str) -> Event {
    Event::Message(Request::PostAuthMessageResponse { response: Some(text.to_string()) })
}

fn empty_answer() -> Event {
    Event::Message(Request::PostAuthMessageResponse { response: None })
}

fn password_prompt() -> Step {
    Step::Reply {
        scan: false,
        response: Response::AuthMessage {
            auth_message_type: AuthMessageKind::Secret,
            auth_message: "Password:".to_string(),
        },
    }
}

fn mfa_prompt() -> Step {
    Step::Reply {
        scan: false,
        response: Response::AuthMessage {
            auth_message_type: AuthMessageKind::Visible,
            auth_message: "7 + 2 =".to_string(),
        },
    }
}

fn fingerprint_prompt() -> Step {
    Step::Reply {
        scan: false,
        response: Response::AuthMessage {
            auth_message_type: AuthMessageKind::Info,
            auth_message: "Scan your fingerprint...".to_string(),
        },
    }
}

fn success() -> Step {
    Step::Reply { scan: false, response: Response::Success }
}

fn invalid_credentials() -> Step {
    Step::Reply {
        scan: false,
        response: Response::Error {
            error_type: ErrorKind::AuthError,
            description: "Invalid credentials".to_string(),
        },
    }
}

fn communication_error() -> Step {
    Step::Reply {
        scan: false,
        response: Response::Error {
            error_type: ErrorKind::AuthError,
            description: "Communication error".to_string(),
        },
    }
}

#[test]
fn happy_path_no_optional_factors() {
    let opts = options(false, false);
    let mut ctx = Context::default();

    assert_eq!(handle(&mut ctx, &opts, create_session("alice")), password_prompt());
    assert_eq!(ctx.state, State::Password);
    assert!(ctx.username);

    assert_eq!(handle(&mut ctx, &opts, answer("correct-pw")), success());
    assert_eq!(ctx.state, State::Done);
}

#[test]
fn wrong_password_then_retry_recovers() {
    let opts = options(false, false);
    let mut ctx = Context::default();

    assert_eq!(handle(&mut ctx, &opts, create_session("alice")), password_prompt());
    assert_eq!(handle(&mut ctx, &opts, answer("wrong-pw")), invalid_credentials());
    assert_eq!(ctx.state, State::Password);
    assert!(ctx.username);
    assert!(!ctx.password);

    assert_eq!(handle(&mut ctx, &opts, answer("correct-pw")), success());
    assert_eq!(ctx.state, State::Done);
}

#[test]
fn wrong_username_keeps_failing_the_password_gate() {
    let opts = options(false, false);
    let mut ctx = Context::default();

    assert_eq!(handle(&mut ctx, &opts, create_session("mallory")), password_prompt());
    assert!(!ctx.username);

    assert_eq!(handle(&mut ctx, &opts, answer("correct-pw")), invalid_credentials());
    assert_eq!(ctx.state, State::Password);
}

#[test]
fn second_factor_challenge_and_retry() {
    let opts = options(true, false);
    let mut ctx = Context::default();

    assert_eq!(handle(&mut ctx, &opts, create_session("alice")), password_prompt());
    assert_eq!(handle(&mut ctx, &opts, answer("correct-pw")), mfa_prompt());
    assert_eq!(ctx.state, State::Mfa);

    assert_eq!(handle(&mut ctx, &opts, answer("8")), invalid_credentials());
    assert_eq!(ctx.state, State::Mfa);

    assert_eq!(handle(&mut ctx, &opts, answer("9")), success());
    assert_eq!(ctx.state, State::Done);
}

#[test]
fn fingerprint_step_scans_and_succeeds() {
    let opts = options(false, true);
    let mut ctx = Context::default();

    assert_eq!(handle(&mut ctx, &opts, create_session("alice")), password_prompt());
    assert_eq!(handle(&mut ctx, &opts, answer("correct-pw")), fingerprint_prompt());
    assert_eq!(ctx.state, State::Fingerprint);

    assert_eq!(
        handle(&mut ctx, &opts, empty_answer()),
        Step::Reply { scan: true, response: Response::Success },
    );
    assert_eq!(ctx.state, State::Done);
}

#[test]
fn second_factor_then_fingerprint() {
    let opts = options(true, true);
    let mut ctx = Context::default();

    assert_eq!(handle(&mut ctx, &opts, create_session("alice")), password_prompt());
    assert_eq!(handle(&mut ctx, &opts, answer("correct-pw")), mfa_prompt());
    assert_eq!(handle(&mut ctx, &opts, answer("9")), fingerprint_prompt());
    assert_eq!(ctx.state, State::Fingerprint);
}

#[test]
fn cancel_session_closes_at_every_state() {
    let opts = options(true, true);

    let mut ctx = Context::default();
    assert_eq!(handle(&mut ctx, &opts, Event::Message(Request::CancelSession)), Step::Close);
    assert_eq!(ctx, Context::default());

    let mut ctx = Context::default();
    handle(&mut ctx, &opts, create_session("alice"));
    assert_eq!(handle(&mut ctx, &opts, Event::Message(Request::CancelSession)), Step::Close);
    assert_eq!(ctx.state, State::Password);

    let mut ctx = Context { state: State::Done, username: true, password: true, mfa: true };
    assert_eq!(handle(&mut ctx, &opts, Event::Message(Request::CancelSession)), Step::Close);
}

#[test]
fn done_state_is_idempotent() {
    let opts = options(false, false);
    let mut ctx = Context::default();

    handle(&mut ctx, &opts, create_session("alice"));
    handle(&mut ctx, &opts, answer("correct-pw"));
    assert_eq!(ctx.state, State::Done);

    assert_eq!(handle(&mut ctx, &opts, answer("anything at all")), success());
    assert_eq!(ctx.state, State::Done);
    assert_eq!(handle(&mut ctx, &opts, answer("")), success());
    assert_eq!(ctx.state, State::Done);
}

#[test]
fn read_failures_close_without_response() {
    let opts = options(false, false);

    let mut ctx = Context::default();
    assert_eq!(handle(&mut ctx, &opts, Event::DecodeError), Step::Close);
    assert_eq!(ctx, Context::default());

    let mut ctx = Context::default();
    assert_eq!(handle(&mut ctx, &opts, Event::Eof), Step::Close);
    assert_eq!(ctx, Context::default());
}

#[test]
fn unexpected_empty_answer_is_a_communication_error() {
    let opts = options(false, false);
    let mut ctx = Context::default();

    handle(&mut ctx, &opts, create_session("alice"));
    assert_eq!(handle(&mut ctx, &opts, empty_answer()), communication_error());
    assert_eq!(ctx.state, State::Password);
}

#[test]
fn start_session_is_acknowledged_and_changes_nothing() {
    let opts = options(false, false);
    let mut ctx = Context::default();

    handle(&mut ctx, &opts, create_session("alice"));
    handle(&mut ctx, &opts, answer("correct-pw"));

    let before = ctx;
    let request = Request::StartSession {
        cmd: vec!["sway".to_string()],
        env: vec!["SHELL=/bin/sh".to_string()],
    };
    assert_eq!(handle(&mut ctx, &opts, Event::Message(request)), success());
    assert_eq!(ctx, before);
}

#[test]
fn text_answer_at_username_step_still_prompts_for_password() {
    let opts = options(false, false);
    let mut ctx = Context::default();

    // At the Username step no text is expected: nothing is recorded, the
    // gate passes, and the connection is moved on to the password prompt.
    assert_eq!(handle(&mut ctx, &opts, answer("correct-pw")), password_prompt());
    assert_eq!(ctx.state, State::Password);
    assert!(!ctx.username);
}
