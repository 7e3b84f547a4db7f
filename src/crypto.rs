use vstd::prelude::*;

verus! {

/// Whether `ed25519_dalek::PublicKey::from_bytes` accepts a byte sequence:
/// it is 32 bytes long and decompresses to a curve point.
pub uninterp spec fn point_accepted(b: Seq<u8>) -> bool;

/// The ed25519 signature that the 64-byte key pair `keypair` (seed followed by
/// public key) gives over the UTF-8 bytes of `message`.
pub uninterp spec fn ed25519_signature(keypair: Seq<u8>, message: Seq<char>) -> Seq<u8>;

/// Whether the ed25519 verification predicate holds of a public key, the
/// UTF-8 bytes of a message and a signature.
pub uninterp spec fn ed25519_verifies(public: Seq<u8>, message: Seq<char>, signature: Seq<u8>) -> bool;

/// The ed25519 public key that a 32-byte secret seed derives.
pub uninterp spec fn ed25519_public(seed: Seq<u8>) -> Seq<u8>;

/// Whether `ed25519_dalek::Keypair::from_bytes` accepts `b`: 64 bytes of which
/// the last 32 are an acceptable public key (the 32-byte seed is never refused).
pub open spec fn keypair_accepted(b: Seq<u8>) -> bool {
    b.len() == 64 && point_accepted(b.subrange(32, 64))
}

/// Whether `Signature::from_bytes` of the `ed25519` crate accepts `b`: 64 bytes
/// whose last byte has its three highest bits clear.
pub open spec fn signature_accepted(b: Seq<u8>) -> bool {
    b.len() == 64 && b[63] & 0xe0u8 == 0
}

/// Relies on `ed25519_dalek::Keypair::from_bytes` and `Signer::sign`: the key
/// pair is rebuilt from its 64 bytes, then signs the message's bytes. The
/// signature's scalar is reduced, so its top three bits are clear.
#[verifier::external_body]
pub(crate) fn sign_with_keypair(keypair: &[u8], message: &str) -> (r: Result<[u8; 64], String>)
    ensures
        r is Ok <==> keypair_accepted(keypair@),
        r is Ok ==> r->Ok_0@ == ed25519_signature(keypair@, message@),
        r is Ok ==> signature_accepted(r->Ok_0@),
{
    let kp = ed25519_dalek::Keypair::from_bytes(keypair).map_err(|e| e.to_string())?;
    Ok(ed25519_dalek::Signer::sign(&kp, message.as_bytes()).to_bytes())
}

/// Relies on `ed25519_dalek::PublicKey::from_bytes`, the `ed25519` crate's
/// `Signature::from_bytes` and `Verifier::verify`: the key and the signature
/// are rebuilt in that order, then the signature is checked over the message.
#[verifier::external_body]
pub(crate) fn verify_with_key(public: &[u8], message: &str, signature: &[u8]) -> (r: Result<bool, String>)
    ensures
        (r is Ok) == (point_accepted(public@) && signature_accepted(signature@)),
        r is Ok ==> r->Ok_0 == ed25519_verifies(public@, message@, signature@),
        r is Ok ==> public@.len() == 32,
{
    let key = ed25519_dalek::PublicKey::from_bytes(public).map_err(|e| e.to_string())?;
    let sig = ed25519_dalek::Signature::from_bytes(signature).map_err(|e| e.to_string())?;
    Ok(ed25519_dalek::Verifier::verify(&key, message.as_bytes(), &sig).is_ok())
}

/// Relies on `solana_sdk::signer::keypair::Keypair::new` and `to_bytes`: a
/// fresh key pair from the system's secure random source, as its 32-byte seed
/// followed by the 32-byte public key derived from that seed, which is a point
/// of the curve. It panics only where the operating system's random source
/// fails.
#[verifier::external_body]
pub(crate) fn fresh_keypair_bytes() -> (r: [u8; 64])
    ensures
        r@.subrange(32, 64) == ed25519_public(r@.subrange(0, 32)),
        point_accepted(r@.subrange(32, 64)),
{
    solana_sdk::signer::keypair::Keypair::new().to_bytes()
}

} // verus!
