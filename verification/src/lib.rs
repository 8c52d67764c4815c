//! Server-side core of a greetd-compatible login-session broker stub.
//!
//! The crate decides, for each decoded request on a connection, which
//! challenge to present next, which credentials to validate, and when to
//! declare success or failure. Socket handling, the wire codec and logging
//! live outside this crate; the logic here works on plain decoded values.

pub mod parse;
pub mod protocol;
pub mod server;
pub mod session;
