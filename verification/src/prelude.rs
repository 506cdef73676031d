//! Convenience re-exports for typical workflows.

pub use crate::context::{
    DecodeError, KvCacheConversionError, KvCacheRange, LlamaContextInfo, LlamaContextType,
};
pub use crate::float_bits::{F32Bits, F64Bits};
pub use crate::model::params::kv_overrides::ParamOverrideValue;
pub use crate::model::params::{
    LlamaLazyMode, LlamaLoadMode, LlamaModelParams, LlamaSplitMode, TensorBuftOverrideError,
};
pub use crate::mtp::{MtpSession, MtpSessionConfig, MtpSessionError};
pub use crate::speculative::{SpeculativeContextCapacity, SpeculativeStateError};
pub use crate::token::LlamaToken;
