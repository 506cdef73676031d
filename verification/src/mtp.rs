//! Multi-token-prediction draft sessions.
//!
//! A session pairs a target context with a draft context and drives the
//! speculative loop: decode on the target, hand the batch to the session, ask
//! for draft tokens, verify them on the target, report how many were accepted.
//!
//! The session keeps, for each sequence, the proposal that still waits to be
//! accepted. Native work enters as closures: each is called at most once, only
//! after the session's own checks have passed, and with the arguments that the
//! contract names.

pub mod config;
pub mod contexts;
pub mod error;
pub mod session;

pub use config::MtpSessionConfig;
pub use error::MtpSessionError;
pub use session::{DraftCall, DraftReply, MtpSession};
