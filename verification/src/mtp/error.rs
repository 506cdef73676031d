//! Session errors.

use crate::context::DecodeError;
use crate::speculative::SpeculativeStateError;
use vstd::prelude::*;

verus! {

/// Errors raised by the draft session.
#[derive(Debug, Clone, Copy, PartialEq, Eq)]
pub enum MtpSessionError {
    /// The native session was not created (typically: the model lacks
    /// multi-token-prediction heads, or one of the contexts is incompatible).
    Init,
    /// The native session rejected a batch.
    Process,
    /// Native prompt initialization failed.
    Begin,
    /// Native draft generation failed.
    Draft,
    /// Native proposal acceptance failed.
    Accept,
    /// Prompt storage exceeds the safe speculative-session bound.
    PromptTooLong {
        /// Caller-supplied prompt-token count.
        size: usize,
        /// Inclusive safe prompt-token bound.
        maximum: usize,
    },
    /// The supplied contexts do not satisfy the native contract.
    IncompatibleContexts(&'static str),
    /// Caller passed a sequence id outside `[0, n_seq)`.
    BadSeqId {
        /// The offending sequence id.
        seq_id: i32,
        /// Configured number of sequences.
        n_seq: u32,
    },
    /// Invalid session configuration (e.g. `n_draft_max <= 0`).
    InvalidConfig(&'static str),
    /// The target context failed to decode.
    Decode(DecodeError),
    /// An operation requires all draft proposals to be completed first.
    ProposalPending {
        /// Sequence with a pending proposal.
        seq_id: i32,
    },
    /// `accept` was called without a preceding nonempty draft.
    NoPendingProposal {
        /// Sequence without a pending proposal.
        seq_id: i32,
    },
    /// The accepted prefix exceeds the proposal length.
    AcceptedTooMany {
        /// Accepted prefix length.
        accepted: u16,
        /// Exact proposal length.
        proposed: usize,
    },
    /// Exact speculative-state capture or restore failed.
    State(SpeculativeStateError),
}

/// A call fails with exactly the error that is due, and succeeds where none is.
pub open spec fn reports<T>(result: Result<T, MtpSessionError>, due: Option<MtpSessionError>) -> bool {
    match due {
        Some(error) => result matches Err(reported) && reported == error,
        None => result is Ok,
    }
}

/// Where an error is due, exactly that error is reported; where none is, the
/// call succeeds.
pub proof fn law_reports<T>(
    result: Result<T, MtpSessionError>,
    due: Option<MtpSessionError>,
    error: MtpSessionError,
)
    ensures
        reports(result, None) <==> result is Ok,
        reports(result, Some(error)) <==> result is Err && result->Err_0 == error,
        reports(result, due) && due is Some ==> result is Err && result->Err_0 == due->0,
        reports(result, due) && due is None ==> result is Ok,
{
}

} // verus!
