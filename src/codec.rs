use vstd::prelude::*;

verus! {

/// What `bs58::decode(..).into_vec()` yields for a text: the bytes, or `None`
/// where the text is not base58 in the Bitcoin alphabet.
pub uninterp spec fn base58_decode(s: Seq<char>) -> Option<Seq<u8>>;

/// The base58 text (Bitcoin alphabet) of a byte sequence.
pub uninterp spec fn base58_text(b: Seq<u8>) -> Seq<char>;

/// The standard, padded base64 text of a byte sequence.
pub uninterp spec fn base64_text(b: Seq<u8>) -> Seq<char>;

/// What the standard base64 engine decodes a text to, or `None` where it
/// refuses the text.
pub uninterp spec fn base64_decode(s: Seq<char>) -> Option<Seq<u8>>;

/// Relies on `bs58::decode(s).into_vec()`: the decoded bytes, or an error.
#[verifier::external_body]
pub(crate) fn decode_base58(s: &str) -> (r: Option<Vec<u8>>)
    ensures
        match r {
            Some(v) => base58_decode(s@) == Some(v@),
            None => base58_decode(s@) is None,
        },
{
    bs58::decode(s).into_vec().ok()
}

/// Relies on `bs58::encode(b).into_string()`, which `bs58::decode` inverts.
#[verifier::external_body]
pub(crate) fn encode_base58(b: &[u8]) -> (r: String)
    ensures
        r@ == base58_text(b@),
        base58_decode(r@) == Some(b@),
{
    bs58::encode(b).into_string()
}

/// Relies on `base64`'s standard engine `encode`, which its `decode` inverts.
#[verifier::external_body]
pub(crate) fn encode_base64(b: &[u8]) -> (r: String)
    ensures
        r@ == base64_text(b@),
        base64_decode(r@) == Some(b@),
{
    base64::Engine::encode(&base64::engine::general_purpose::STANDARD, b)
}

/// Relies on `base64`'s standard engine `decode`: the bytes, or an error.
#[verifier::external_body]
pub(crate) fn decode_base64(s: &str) -> (r: Option<Vec<u8>>)
    ensures
        match r {
            Some(v) => base64_decode(s@) == Some(v@),
            None => base64_decode(s@) is None,
        },
{
    base64::Engine::decode(&base64::engine::general_purpose::STANDARD, s).ok()
}

} // verus!
