//! Model parameters and multi-token-prediction draft sessions for llama.cpp,
//! with every rule stated as a contract and proved.
//!
//! The library decides; it never touches native memory. Native calls enter as
//! plain values (what a query returned) or as closures (the call itself, made
//! only once the library's checks have passed).

pub mod context;
pub mod float_bits;
pub mod model;
pub mod mtp;
pub mod prelude;
pub mod speculative;
pub mod text;
pub mod token;
