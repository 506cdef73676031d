//! What speculative sessions of every kind share.

use vstd::prelude::*;

verus! {

/// What a context offers to a speculative session.
#[derive(Debug, Clone, Copy, PartialEq, Eq, Structural)]
pub struct SpeculativeContextCapacity {
    /// Logical batch size.
    pub batch: u32,
    /// Physical batch size.
    pub micro_batch: u32,
    /// Recurrent-state slots per sequence.
    pub recurrent_slots: u32,
    /// The model keeps recurrent state.
    pub recurrent_or_hybrid: bool,
}

/// Why speculative continuation state was not captured or restored.
#[derive(Debug, Clone, Copy, PartialEq, Eq, Structural)]
pub enum SpeculativeStateError {
    /// The native session still has work in flight.
    NotQuiescent,
    /// The native session cannot produce or take complete state.
    Unsupported,
    /// The state exceeds the size bound.
    TooLarge {
        /// Size of the state in bytes.
        size: usize,
        /// Inclusive bound in bytes.
        maximum: usize,
    },
    /// Version, configuration or contents do not match the session.
    Mismatch,
}

} // verus!
