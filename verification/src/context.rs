//! What the library reads of an inference context.

use vstd::prelude::*;

verus! {

/// The role a context was built for.
#[derive(Debug, Clone, Copy, PartialEq, Eq, Structural)]
pub enum LlamaContextType {
    /// An ordinary inference context.
    Default,
    /// A multi-token-prediction draft context.
    Mtp,
}

/// The properties of a context, and of its model, that decide whether it can
/// take part in a draft session.
#[derive(Debug, Clone, Copy, PartialEq, Eq, Structural)]
pub struct LlamaContextInfo {
    /// The role the context was built for.
    pub context_type: LlamaContextType,
    /// Number of sequences the context can hold.
    pub n_seq_max: u32,
    /// Logical batch size.
    pub n_batch: u32,
    /// Physical batch size.
    pub n_ubatch: u32,
    /// Recurrent-state slots per sequence.
    pub n_rs_seq: u32,
    /// The model is recurrent.
    pub is_recurrent: bool,
    /// The model is a hybrid of attention and recurrence.
    pub is_hybrid: bool,
    /// Width of the model's output embedding.
    pub n_embd_out: i32,
}

/// A failed decode, by the status that the backend returned.
#[derive(Debug, Clone, Copy, PartialEq, Eq, Structural)]
pub struct DecodeError {
    /// The backend's status code.
    pub status: i32,
}

/// An identifier or position that exceeds the backend's `i32` bounds.
#[derive(Debug, Clone, Copy, PartialEq, Eq, Structural)]
pub enum KvCacheConversionError {
    /// The sequence id is too large.
    SeqIdTooLarge(u32),
    /// The start position is too large.
    P0TooLarge(u32),
    /// The end position is too large.
    P1TooLarge(u32),
}

/// A range of a context's KV cache in the backend's own integers; `None`
/// leaves that bound open.
#[derive(Debug, Clone, Copy, PartialEq, Eq)]
pub struct KvCacheRange {
    /// The sequence.
    pub seq_id: Option<i32>,
    /// The start position.
    pub p0: Option<i32>,
    /// The end position.
    pub p1: Option<i32>,
}

/// The bound fits the backend's integers.
pub open spec fn fits(bound: Option<u32>) -> bool {
    bound matches Some(n) ==> n <= i32::MAX
}

/// The bound in the backend's integers.
pub open spec fn native_bound(bound: Option<u32>) -> Option<i32> {
    match bound {
        Some(n) => Some(n as i32),
        None => None,
    }
}

/// The range in the backend's integers, or the first bound that does not fit:
/// the sequence, then the start, then the end.
pub open spec fn kv_range(
    seq_id: Option<u32>,
    p0: Option<u32>,
    p1: Option<u32>,
) -> Result<KvCacheRange, KvCacheConversionError> {
    if !fits(seq_id) {
        Err(KvCacheConversionError::SeqIdTooLarge(seq_id->0))
    } else if !fits(p0) {
        Err(KvCacheConversionError::P0TooLarge(p0->0))
    } else if !fits(p1) {
        Err(KvCacheConversionError::P1TooLarge(p1->0))
    } else {
        Ok(
            KvCacheRange {
                seq_id: native_bound(seq_id),
                p0: native_bound(p0),
                p1: native_bound(p1),
            },
        )
    }
}

fn convert_bound(bound: Option<u32>) -> (converted: Result<Option<i32>, u32>)
    ensures
        match converted {
            Ok(native) => fits(bound) && native == native_bound(bound),
            Err(n) => !fits(bound) && bound == Some(n),
        },
{
    match bound {
        Some(n) => if n <= i32::MAX as u32 {
            Ok(Some(n as i32))
        } else {
            Err(n)
        },
        None => Ok(None),
    }
}

/// Converts a KV cache range to the backend's integers.
///
/// # Errors
///
/// The first of sequence id, start and end that exceeds `i32`.
pub fn kv_cache_range(seq_id: Option<u32>, p0: Option<u32>, p1: Option<u32>) -> (range: Result<
    KvCacheRange,
    KvCacheConversionError,
>)
    ensures
        range == kv_range(seq_id, p0, p1),
{
    let seq_id = match convert_bound(seq_id) {
        Ok(native) => native,
        Err(n) => return Err(KvCacheConversionError::SeqIdTooLarge(n)),
    };
    let p0 = match convert_bound(p0) {
        Ok(native) => native,
        Err(n) => return Err(KvCacheConversionError::P0TooLarge(n)),
    };
    let p1 = match convert_bound(p1) {
        Ok(native) => native,
        Err(n) => return Err(KvCacheConversionError::P1TooLarge(n)),
    };
    Ok(KvCacheRange { seq_id, p0, p1 })
}

/// A range converts exactly when none of its bounds exceeds `i32`; then every
/// bound that was given comes out as the same number in its own place, and
/// every open one stays open.
pub proof fn law_kv_range_converts(seq_id: Option<u32>, p0: Option<u32>, p1: Option<u32>)
    ensures
        kv_range(seq_id, p0, p1) is Ok <==> {
            &&& seq_id is Some ==> seq_id->0 <= 0x7fff_ffff
            &&& p0 is Some ==> p0->0 <= 0x7fff_ffff
            &&& p1 is Some ==> p1->0 <= 0x7fff_ffff
        },
        kv_range(seq_id, p0, p1) matches Ok(range) ==> {
            &&& range.seq_id is Some <==> seq_id is Some
            &&& range.p0 is Some <==> p0 is Some
            &&& range.p1 is Some <==> p1 is Some
            &&& seq_id is Some ==> range.seq_id->0 == seq_id->0
            &&& p0 is Some ==> range.p0->0 == p0->0
            &&& p1 is Some ==> range.p1->0 == p1->0
        },
{
}

/// A range that does not convert is reported by the first bound that is too
/// large, with its value: the sequence before the start before the end.
pub proof fn law_kv_range_refusal(seq_id: Option<u32>, p0: Option<u32>, p1: Option<u32>)
    ensures
        seq_id matches Some(n) && n > 0x7fff_ffff ==> kv_range(seq_id, p0, p1)
            == Err::<KvCacheRange, KvCacheConversionError>(
            KvCacheConversionError::SeqIdTooLarge(seq_id->0),
        ),
        !(seq_id matches Some(n) && n > 0x7fff_ffff) && (p0 matches Some(n) && n > 0x7fff_ffff)
            ==> kv_range(seq_id, p0, p1) == Err::<KvCacheRange, KvCacheConversionError>(
            KvCacheConversionError::P0TooLarge(p0->0),
        ),
        !(seq_id matches Some(n) && n > 0x7fff_ffff) && !(p0 matches Some(n) && n > 0x7fff_ffff)
            && (p1 matches Some(n) && n > 0x7fff_ffff) ==> kv_range(seq_id, p0, p1) == Err::<
            KvCacheRange,
            KvCacheConversionError,
        >(KvCacheConversionError::P1TooLarge(p1->0)),
{
}

} // verus!
