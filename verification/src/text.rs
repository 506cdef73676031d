//! Text helpers: comparison, NUL bytes and lossy UTF-8 decoding.

use vstd::prelude::*;

verus! {

/// What `String::from_utf8_lossy` makes of `bytes`, as characters.
pub uninterp spec fn utf8_lossy(bytes: Seq<u8>) -> Seq<char>;

/// Decodes `bytes` with `String::from_utf8_lossy`.
///
/// Believed of that function: its result depends on the bytes alone, and
/// bytes that are valid UTF-8 come out as the characters they encode. How
/// invalid sequences are replaced is left unsaid.
#[verifier::external_body]
fn string_from_utf8_lossy(bytes: &[u8]) -> (text: String)
    ensures
        text@ == utf8_lossy(bytes@),
        vstd::utf8::valid_utf8(bytes@) ==> text@ == vstd::utf8::decode_utf8(bytes@),
{
    String::from_utf8_lossy(bytes).into_owned()
}

/// The text that `bytes` stand for: the characters they encode where they are
/// valid UTF-8, and what lossy decoding makes of them otherwise.
pub open spec fn decoded(bytes: Seq<u8>) -> Seq<char> {
    if vstd::utf8::valid_utf8(bytes) {
        vstd::utf8::decode_utf8(bytes)
    } else {
        utf8_lossy(bytes)
    }
}

/// Text that was encoded as UTF-8 decodes to itself.
pub proof fn law_decoding_undoes_encoding(text: Seq<char>)
    ensures
        decoded(vstd::utf8::encode_utf8(text)) == text,
{
    vstd::utf8::encode_utf8_valid_utf8(text);
    vstd::utf8::encode_utf8_decode_utf8(text);
}

/// Decodes `bytes`.
pub fn decode_text(bytes: &[u8]) -> (text: String)
    ensures
        text@ == decoded(bytes@),
{
    string_from_utf8_lossy(bytes)
}

/// Whether two strings hold the same characters.
pub(crate) fn same_text(a: &str, b: &str) -> (same: bool)
    ensures
        same == (a@ == b@),
{
    a.to_owned() == b.to_owned()
}

/// Whether a NUL byte occurs in `bytes`.
pub(crate) fn contains_nul(bytes: &[u8]) -> (found: bool)
    ensures
        found == bytes@.contains(0u8),
{
    let mut i: usize = 0;
    while i < bytes.len()
        invariant
            i <= bytes.len(),
            forall|j: int| 0 <= j < i ==> bytes@[j] != 0u8,
        decreases bytes.len() - i,
    {
        if bytes[i] == 0 {
            assert(bytes@[i as int] == 0u8);
            return true;
        }
        i += 1;
    }
    false
}

/// An owned copy of `bytes`.
pub(crate) fn copied_bytes(bytes: &[u8]) -> (copy: Vec<u8>)
    ensures
        copy@ == bytes@,
{
    let mut copy: Vec<u8> = Vec::new();
    let mut i: usize = 0;
    while i < bytes.len()
        invariant
            i <= bytes.len(),
            copy@ == bytes@.take(i as int),
        decreases bytes.len() - i,
    {
        copy.push(bytes[i]);
        i += 1;
        assert(bytes@.take(i as int) =~= bytes@.take(i - 1).push(bytes@[i - 1]));
    }
    assert(bytes@.take(bytes@.len() as int) =~= bytes@);
    copy
}

/// Bytes that are valid UTF-8 decode to the characters whose encoding they
/// are; any others decode as `String::from_utf8_lossy` decodes them.
pub proof fn law_decoded(bytes: Seq<u8>)
    ensures
        vstd::utf8::valid_utf8(bytes) ==> vstd::utf8::encode_utf8(decoded(bytes)) == bytes,
        !vstd::utf8::valid_utf8(bytes) ==> decoded(bytes) == utf8_lossy(bytes),
{
    if vstd::utf8::valid_utf8(bytes) {
        vstd::utf8::decode_utf8_encode_utf8(bytes);
    }
}

} // verus!
