use vstd::prelude::*;
use crate::codec::{base58_decode, base58_text, base64_decode};
use crate::crypto::{ed25519_public, ed25519_signature, ed25519_verifies, keypair_accepted};
use crate::error::ServerError;
use crate::handlers::{
    create_token_outcome, is_validation_error, mint_token_outcome, renders_keypair,
    send_sol_outcome, send_token_outcome, sign_outcome, verify_outcome,
};
use crate::instruction::address_text;
use crate::models::{
    CreateTokenRequest, InstructionResponse, KeypairResponse, MintTokenRequest, SendSolRequest,
    SendTokenRequest, SignMessageRequest, SignMessageResponse, VerifyMessageRequest, VerifyMessageResponse,
};

verus! {

/// A signature that does not decode to exactly 64 bytes is refused as invalid
/// input, before any cryptographic check is made.
pub proof fn lemma_signature_length_checked_first(
    req: VerifyMessageRequest,
    r: Result<VerifyMessageResponse, ServerError>,
)
    requires
        verify_outcome(req, r),
        base64_decode(req.signature@) is Some,
        base64_decode(req.signature@)->Some_0.len() != 64,
    ensures
        is_validation_error(r),
{
}

/// Both transfers refuse an amount of zero as invalid input.
pub proof fn lemma_zero_transfer_refused(
    sol: SendSolRequest,
    rs: Result<InstructionResponse, ServerError>,
    token: SendTokenRequest,
    rt: Result<InstructionResponse, ServerError>,
)
    requires
        send_sol_outcome(sol, rs),
        send_token_outcome(token, rt),
    ensures
        sol.lamports == 0 ==> is_validation_error(rs),
        token.amount == 0 ==> is_validation_error(rt),
{
}

/// Minting accepts an amount of zero: with well-formed addresses it succeeds.
pub proof fn lemma_zero_mint_accepted(req: MintTokenRequest, r: Result<InstructionResponse, ServerError>)
    requires
        mint_token_outcome(req, r),
        req.amount == 0,
        address_text(req.mint@) is Some,
        address_text(req.destination@) is Some,
        address_text(req.authority@) is Some,
    ensures
        r is Ok,
{
}

/// An address text that is not base58 of exactly 32 bytes makes every
/// instruction builder fail with invalid input.
pub proof fn lemma_malformed_address_refused(
    create: CreateTokenRequest,
    rc: Result<InstructionResponse, ServerError>,
    mint: MintTokenRequest,
    rm: Result<InstructionResponse, ServerError>,
    sol: SendSolRequest,
    rs: Result<InstructionResponse, ServerError>,
    token: SendTokenRequest,
    rt: Result<InstructionResponse, ServerError>,
)
    requires
        create_token_outcome(create, rc),
        mint_token_outcome(mint, rm),
        send_sol_outcome(sol, rs),
        send_token_outcome(token, rt),
    ensures
        address_text(create.mint_authority@) is None || address_text(create.mint@) is None
            ==> is_validation_error(rc),
        address_text(mint.mint@) is None || address_text(mint.destination@) is None
            || address_text(mint.authority@) is None ==> is_validation_error(rm),
        address_text(sol.from@) is None || address_text(sol.to@) is None
            ==> is_validation_error(rs),
        address_text(token.destination@) is None || address_text(token.mint@) is None
            || address_text(token.owner@) is None ==> is_validation_error(rt),
{
}

/// The secret of a generated key pair is accepted for signing, and signing
/// with it reports the generated public key.
pub proof fn lemma_generated_secret_signs(
    k: KeypairResponse,
    req: SignMessageRequest,
    r: Result<SignMessageResponse, ServerError>,
)
    requires
        renders_keypair(k),
        req.secret@ == k.secret@,
        sign_outcome(req, r),
    ensures
        r is Ok,
        r->Ok_0.public_key@ == k.pubkey@,
        r->Ok_0.message@ == req.message@,
{
    let b = choose|b: Seq<u8>| b.len() == 64
        && b.subrange(32, 64) == ed25519_public(b.subrange(0, 32))
        && keypair_accepted(b)
        && base58_decode(k.secret@) == Some(b)
        && k.pubkey@ == base58_text(b.subrange(32, 64))
        && k.secret@ == #[trigger] base58_text(b);
    assert(base58_decode(req.secret@) == Some(b));
}

/// A signature that `sign_message` produced, checked with the public key and
/// message it reported, passes every decoding and length check and reaches
/// the ed25519 predicate on exactly the signed key and message.
pub proof fn lemma_signed_message_reaches_predicate(
    sreq: SignMessageRequest,
    sr: Result<SignMessageResponse, ServerError>,
    vreq: VerifyMessageRequest,
    vr: Result<VerifyMessageResponse, ServerError>,
)
    requires
        sign_outcome(sreq, sr),
        sr is Ok,
        vreq.pubkey@ == sr->Ok_0.public_key@,
        vreq.signature@ == sr->Ok_0.signature@,
        vreq.message@ == sreq.message@,
        verify_outcome(vreq, vr),
    ensures
        vr is Ok,
        base58_decode(sreq.secret@) is Some,
        vr->Ok_0.valid == ed25519_verifies(
            base58_decode(sreq.secret@)->Some_0.subrange(32, 64),
            sreq.message@,
            ed25519_signature(base58_decode(sreq.secret@)->Some_0, sreq.message@),
        ),
{
}

} // verus!
