use vstd::prelude::*;
use vstd::slice::slice_subrange;
use crate::codec::{base58_decode, base58_text, base64_decode, base64_text, decode_base58, decode_base64, encode_base58, encode_base64};
use crate::crypto::{ed25519_public, ed25519_signature, ed25519_verifies, fresh_keypair_bytes, keypair_accepted, point_accepted, sign_with_keypair, signature_accepted, verify_with_key};
use crate::error::ServerError;
use crate::instruction::{
    address_text, associated_address, associated_token_address, initialize_mint_instruction,
    initialize_mint_view, mint_to_instruction, mint_to_view, parse_address, render_instruction,
    renders, system_transfer_instruction, system_transfer_view, token_transfer_instruction,
    token_transfer_view,
};
use crate::models::{
    CreateTokenRequest, InstructionResponse, KeypairResponse, MintTokenRequest, SendSolRequest,
    SendTokenRequest, SignMessageRequest, SignMessageResponse, VerifyMessageRequest,
    VerifyMessageResponse,
};

verus! {

pub open spec fn is_validation_error<T>(r: Result<T, ServerError>) -> bool {
    r is Err && r->Err_0 is ValidationError
}

pub open spec fn is_crypto_error<T>(r: Result<T, ServerError>) -> bool {
    r is Err && r->Err_0 is CryptoError
}

/// `r` is invalid input reported with exactly the text `text`.
pub open spec fn is_invalid<T>(r: Result<T, ServerError>, text: Seq<char>) -> bool {
    r is Err && r->Err_0 is ValidationError && r->Err_0->ValidationError_0@ == text
}

fn invalid<T>(m: &str) -> (r: Result<T, ServerError>)
    ensures
        is_invalid(r, m@),
{
    Err(ServerError::ValidationError(String::from_str(m)))
}

/// Renders 64 key-pair bytes (seed, then public key): the public key alone and
/// the whole pair, each in base58.
pub fn keypair_response(bytes: &[u8; 64]) -> (r: KeypairResponse)
    ensures
        r.pubkey@ == base58_text(bytes@.subrange(32, 64)),
        r.secret@ == base58_text(bytes@),
        base58_decode(r.secret@) == Some(bytes@),
{
    let public = slice_subrange(bytes.as_slice(), 32, 64);
    KeypairResponse { pubkey: encode_base58(public), secret: encode_base58(bytes.as_slice()) }
}

/// Whether `k` renders a key pair: 64 bytes, as base58 text that decodes back
/// to them, whose second half is the public key derived from the first and
/// is also given alone.
pub open spec fn renders_keypair(k: KeypairResponse) -> bool {
    exists|b: Seq<u8>| b.len() == 64
        && b.subrange(32, 64) == ed25519_public(b.subrange(0, 32))
        && keypair_accepted(b)
        && base58_decode(k.secret@) == Some(b)
        && k.pubkey@ == base58_text(b.subrange(32, 64))
        && k.secret@ == #[trigger] base58_text(b)
}

/// A fresh key pair from the system's secure random source, rendered as
/// `keypair_response` renders it.
pub fn generate_keypair() -> (r: Result<KeypairResponse, ServerError>)
    ensures
        r is Ok,
        renders_keypair(r->Ok_0),
{
    let bytes = fresh_keypair_bytes();
    let response = keypair_response(&bytes);
    assert(bytes@.len() == 64
        && bytes@.subrange(32, 64) == ed25519_public(bytes@.subrange(0, 32))
        && keypair_accepted(bytes@)
        && base58_decode(response.secret@) == Some(bytes@)
        && response.pubkey@ == base58_text(bytes@.subrange(32, 64))
        && response.secret@ == base58_text(bytes@));
    Ok(response)
}

/// The outcome that `sign_message` owes for a request.
pub open spec fn sign_outcome(req: SignMessageRequest, r: Result<SignMessageResponse, ServerError>) -> bool {
    match base58_decode(req.secret@) {
        None => is_invalid(r, "Invalid secret key format"@),
        Some(b) => if b.len() != 64 {
            is_invalid(r, "Invalid secret key length"@)
        } else if !keypair_accepted(b) {
            is_crypto_error(r)
        } else {
            &&& r is Ok
            &&& r->Ok_0.signature@ == base64_text(ed25519_signature(b, req.message@))
            &&& r->Ok_0.public_key@ == base58_text(b.subrange(32, 64))
            &&& base64_decode(r->Ok_0.signature@) == Some(ed25519_signature(b, req.message@))
            &&& base58_decode(r->Ok_0.public_key@) == Some(b.subrange(32, 64))
            &&& signature_accepted(ed25519_signature(b, req.message@))
            &&& r->Ok_0.message@ == req.message@
        },
    }
}

/// Signs the message's bytes with a base58-encoded 64-byte key pair.
pub fn sign_message(req: &SignMessageRequest) -> (r: Result<SignMessageResponse, ServerError>)
    ensures
        sign_outcome(*req, r),
{
    let secret = match decode_base58(req.secret.as_str()) {
        Some(b) => b,
        None => return invalid("Invalid secret key format"),
    };
    if secret.len() != 64 {
        return invalid("Invalid secret key length");
    }
    let signature = match sign_with_keypair(secret.as_slice(), req.message.as_str()) {
        Ok(s) => s,
        Err(e) => return Err(ServerError::CryptoError(e)),
    };
    let public = slice_subrange(secret.as_slice(), 32, 64);
    Ok(SignMessageResponse {
        signature: encode_base64(signature.as_slice()),
        public_key: encode_base58(public),
        message: req.message.clone(),
    })
}

/// The outcome that `verify_message` owes for a request.
pub open spec fn verify_outcome(req: VerifyMessageRequest, r: Result<VerifyMessageResponse, ServerError>) -> bool {
    match (base58_decode(req.pubkey@), base64_decode(req.signature@)) {
        (None, _) => is_invalid(r, "Invalid public key format"@),
        (Some(_), None) => is_invalid(r, "Invalid signature format"@),
        (Some(k), Some(s)) => if s.len() != 64 {
            is_invalid(r, "Invalid signature length"@)
        } else if !point_accepted(k) || !signature_accepted(s) {
            is_crypto_error(r)
        } else {
            &&& r is Ok
            &&& r->Ok_0.valid == ed25519_verifies(k, req.message@, s)
            &&& r->Ok_0.message@ == req.message@
            &&& r->Ok_0.pubkey@ == req.pubkey@
        },
    }
}

/// Checks a base64 signature over the message's bytes against a base58 public
/// key; a signature that fails the check is a result, not an error.
pub fn verify_message(req: &VerifyMessageRequest) -> (r: Result<VerifyMessageResponse, ServerError>)
    ensures
        verify_outcome(*req, r),
{
    let public = match decode_base58(req.pubkey.as_str()) {
        Some(b) => b,
        None => return invalid("Invalid public key format"),
    };
    let signature = match decode_base64(req.signature.as_str()) {
        Some(b) => b,
        None => return invalid("Invalid signature format"),
    };
    if signature.len() != 64 {
        return invalid("Invalid signature length");
    }
    let valid = match verify_with_key(public.as_slice(), req.message.as_str(), signature.as_slice()) {
        Ok(v) => v,
        Err(e) => return Err(ServerError::CryptoError(e)),
    };
    Ok(VerifyMessageResponse { valid, message: req.message.clone(), pubkey: req.pubkey.clone() })
}

/// The outcome that `create_token` owes for a request.
pub open spec fn create_token_outcome(req: CreateTokenRequest, r: Result<InstructionResponse, ServerError>) -> bool {
    match (address_text(req.mint_authority@), address_text(req.mint@)) {
        (None, _) => is_invalid(r, "Invalid mint authority pubkey"@),
        (Some(_), None) => is_invalid(r, "Invalid mint pubkey"@),
        (Some(a), Some(m)) => r is Ok && renders(initialize_mint_view(m, a, req.decimals), r->Ok_0),
    }
}

/// Builds the token program's `InitializeMint` instruction for a mint.
pub fn create_token(req: &CreateTokenRequest) -> (r: Result<InstructionResponse, ServerError>)
    ensures
        create_token_outcome(*req, r),
{
    let authority = match parse_address(req.mint_authority.as_str()) {
        Some(a) => a,
        None => return invalid("Invalid mint authority pubkey"),
    };
    let mint = match parse_address(req.mint.as_str()) {
        Some(a) => a,
        None => return invalid("Invalid mint pubkey"),
    };
    match initialize_mint_instruction(&mint, &authority, req.decimals) {
        Ok(ix) => Ok(render_instruction(&ix)),
        Err(e) => Err(ServerError::TokenError(e)),
    }
}

/// The outcome that `mint_token` owes for a request; an amount of zero is
/// accepted.
pub open spec fn mint_token_outcome(req: MintTokenRequest, r: Result<InstructionResponse, ServerError>) -> bool {
    match (address_text(req.mint@), address_text(req.destination@), address_text(req.authority@)) {
        (None, _, _) => is_invalid(r, "Invalid mint address"@),
        (Some(_), None, _) => is_invalid(r, "Invalid destination address"@),
        (Some(_), Some(_), None) => is_invalid(r, "Invalid authority address"@),
        (Some(m), Some(d), Some(a)) => r is Ok && renders(mint_to_view(m, d, a, req.amount), r->Ok_0),
    }
}

/// Builds the token program's `MintTo` instruction.
pub fn mint_token(req: &MintTokenRequest) -> (r: Result<InstructionResponse, ServerError>)
    ensures
        mint_token_outcome(*req, r),
{
    let mint = match parse_address(req.mint.as_str()) {
        Some(a) => a,
        None => return invalid("Invalid mint address"),
    };
    let destination = match parse_address(req.destination.as_str()) {
        Some(a) => a,
        None => return invalid("Invalid destination address"),
    };
    let authority = match parse_address(req.authority.as_str()) {
        Some(a) => a,
        None => return invalid("Invalid authority address"),
    };
    match mint_to_instruction(&mint, &destination, &authority, req.amount) {
        Ok(ix) => Ok(render_instruction(&ix)),
        Err(e) => Err(ServerError::TokenError(e)),
    }
}

/// The outcome that `send_sol` owes for a request.
pub open spec fn send_sol_outcome(req: SendSolRequest, r: Result<InstructionResponse, ServerError>) -> bool {
    match (address_text(req.from@), address_text(req.to@)) {
        (None, _) => is_invalid(r, "Invalid sender address"@),
        (Some(_), None) => is_invalid(r, "Invalid recipient address"@),
        (Some(f), Some(t)) => if req.lamports == 0 {
            is_invalid(r, "Amount must be greater than 0"@)
        } else {
            r is Ok && renders(system_transfer_view(f, t, req.lamports), r->Ok_0)
        },
    }
}

/// Builds the system program's native transfer instruction.
pub fn send_sol(req: &SendSolRequest) -> (r: Result<InstructionResponse, ServerError>)
    ensures
        send_sol_outcome(*req, r),
{
    let from = match parse_address(req.from.as_str()) {
        Some(a) => a,
        None => return invalid("Invalid sender address"),
    };
    let to = match parse_address(req.to.as_str()) {
        Some(a) => a,
        None => return invalid("Invalid recipient address"),
    };
    if req.lamports == 0 {
        return invalid("Amount must be greater than 0");
    }
    let ix = system_transfer_instruction(&from, &to, req.lamports);
    Ok(render_instruction(&ix))
}

/// The outcome that `send_token` owes for a request: the transfer runs between
/// the associated token accounts of owner and destination for the mint.
pub open spec fn send_token_outcome(req: SendTokenRequest, r: Result<InstructionResponse, ServerError>) -> bool {
    match (address_text(req.destination@), address_text(req.mint@), address_text(req.owner@)) {
        (None, _, _) => is_invalid(r, "Invalid destination address"@),
        (Some(_), None, _) => is_invalid(r, "Invalid mint address"@),
        (Some(_), Some(_), None) => is_invalid(r, "Invalid owner address"@),
        (Some(d), Some(m), Some(o)) => if req.amount == 0 {
            is_invalid(r, "Amount must be greater than 0"@)
        } else {
            &&& r is Ok
            &&& renders(
                token_transfer_view(associated_address(o, m), associated_address(d, m), o, req.amount),
                r->Ok_0,
            )
        },
    }
}

/// Builds the token program's `Transfer` instruction between associated
/// token accounts. Whether those accounts exist is left to the caller.
pub fn send_token(req: &SendTokenRequest) -> (r: Result<InstructionResponse, ServerError>)
    ensures
        send_token_outcome(*req, r),
{
    let destination = match parse_address(req.destination.as_str()) {
        Some(a) => a,
        None => return invalid("Invalid destination address"),
    };
    let mint = match parse_address(req.mint.as_str()) {
        Some(a) => a,
        None => return invalid("Invalid mint address"),
    };
    let owner = match parse_address(req.owner.as_str()) {
        Some(a) => a,
        None => return invalid("Invalid owner address"),
    };
    if req.amount == 0 {
        return invalid("Amount must be greater than 0");
    }
    let owner_account = associated_token_address(&owner, &mint);
    let destination_account = associated_token_address(&destination, &mint);
    match token_transfer_instruction(&owner_account, &destination_account, &owner, req.amount) {
        Ok(ix) => Ok(render_instruction(&ix)),
        Err(e) => Err(ServerError::TokenError(e)),
    }
}

} // verus!
