use base64::Engine;
use solana_http_core::error::ServerError;
use solana_http_core::handlers::{
    create_token, generate_keypair, mint_token, send_sol, send_token, sign_message, verify_message,
};
use solana_http_core::models::{
    ApiResponse, CreateTokenRequest, MintTokenRequest, SendSolRequest, SendTokenRequest,
    SignMessageRequest, VerifyMessageRequest,
};

const ZERO_ADDRESS: &str = "11111111111111111111111111111111";
const TOKEN_PROGRAM: &str = "TokenkegQfeZyiNwAJbNbGKPFXCWuBvf9Ss623VQ5DA";
const RENT_SYSVAR: &str = "SysvarRent111111111111111111111111111111111";

fn b64(bytes: &[u8]) -> String {
    base64::engine::general_purpose::STANDARD.encode(bytes)
}

fn b64_decode(s: &str) -> Vec<u8> {
    base64::engine::general_purpose::STANDARD.decode(s).unwrap()
}

fn sign(secret: &str, message: &str) -> Result<solana_http_core::models::SignMessageResponse, ServerError> {
    sign_message(&SignMessageRequest { message: message.to_string(), secret: secret.to_string() })
}

fn verify(pubkey: &str, message: &str, signature: &str) -> Result<bool, ServerError> {
    verify_message(&VerifyMessageRequest {
        message: message.to_string(),
        signature: signature.to_string(),
        pubkey: pubkey.to_string(),
    })
    .map(|r| r.valid)
}

fn is_validation<T>(r: &Result<T, ServerError>) -> bool {
    matches!(r, Err(ServerError::ValidationError(_)))
}

fn is_crypto<T>(r: &Result<T, ServerError>) -> bool {
    matches!(r, Err(ServerError::CryptoError(_)))
}

#[test]
fn signature_verifies_under_its_key() {
    let kp = generate_keypair().unwrap();
    for message in ["", "hello", "héllo wörld"] {
        let signed = sign(&kp.secret, message).unwrap();
        assert_eq!(signed.public_key, kp.pubkey);
        assert_eq!(signed.message, message);
        assert_eq!(b64_decode(&signed.signature).len(), 64);
        assert_eq!(verify(&kp.pubkey, message, &signed.signature).unwrap(), true);
    }
}

#[test]
fn signing_is_deterministic() {
    let kp = generate_keypair().unwrap();
    let a = sign(&kp.secret, "same message").unwrap();
    let b = sign(&kp.secret, "same message").unwrap();
    assert_eq!(a.signature, b.signature);
}

#[test]
fn flipped_signature_bit_fails() {
    let kp = generate_keypair().unwrap();
    let signed = sign(&kp.secret, "transfer 5").unwrap();
    let original = b64_decode(&signed.signature);
    for byte in [0usize, 17, 31, 32, 50, 63] {
        for bit in 0..8 {
            let mut flipped = original.clone();
            flipped[byte] ^= 1 << bit;
            let r = verify(&kp.pubkey, "transfer 5", &b64(&flipped));
            // a flip in the high bits of the last byte is refused as malformed
            assert!(r.as_ref().map(|v| !*v).unwrap_or(false) || is_crypto(&r));
        }
    }
}

#[test]
fn other_message_or_key_fails() {
    let kp = generate_keypair().unwrap();
    let other = generate_keypair().unwrap();
    let signed = sign(&kp.secret, "abc").unwrap();
    assert_eq!(verify(&kp.pubkey, "abd", &signed.signature).unwrap(), false);
    assert_eq!(verify(&other.pubkey, "abc", &signed.signature).unwrap(), false);
}

#[test]
fn generated_keypairs_are_fresh_and_consistent() {
    let a = generate_keypair().unwrap();
    let b = generate_keypair().unwrap();
    assert_ne!(a.secret, b.secret);
    assert_ne!(a.pubkey, b.pubkey);
    let bytes = bs58::decode(&a.secret).into_vec().unwrap();
    assert_eq!(bytes.len(), 64);
    assert_eq!(bs58::encode(&bytes[32..]).into_string(), a.pubkey);
    // the public half is the key derived from the seed
    let seed = ed25519_dalek::SecretKey::from_bytes(&bytes[..32]).unwrap();
    let derived = ed25519_dalek::PublicKey::from(&seed);
    assert_eq!(derived.to_bytes().to_vec(), bytes[32..].to_vec());
}

#[test]
fn signature_of_wrong_length_is_validation_error() {
    let kp = generate_keypair().unwrap();
    for len in [0usize, 1, 63, 65, 128] {
        let r = verify(&kp.pubkey, "m", &b64(&vec![0u8; len]));
        assert!(is_validation(&r), "length {}", len);
    }
}

#[test]
fn malformed_signature_text_is_validation_error() {
    let kp = generate_keypair().unwrap();
    assert!(is_validation(&verify(&kp.pubkey, "m", "not base64!!")));
}

#[test]
fn malformed_public_key_text_is_validation_error() {
    assert!(is_validation(&verify("0OIl", "m", &b64(&[0u8; 64]))));
}

#[test]
fn off_curve_public_key_is_crypto_error() {
    // an associated token account is a program-derived address, off the curve
    let owner = generate_keypair().unwrap();
    let r = send_token(&SendTokenRequest {
        destination: ZERO_ADDRESS.to_string(),
        mint: TOKEN_PROGRAM.to_string(),
        owner: owner.pubkey.clone(),
        amount: 1,
    })
    .unwrap();
    let derived = r.accounts[0].pubkey.clone();
    assert!(is_crypto(&verify(&derived, "m", &b64(&[0u8; 64]))));
}

#[test]
fn secret_key_checks() {
    assert!(is_validation(&sign("0OIl", "m")));
    let short = bs58::encode(vec![1u8; 32]).into_string();
    assert!(is_validation(&sign(&short, "m")));
    let kp = generate_keypair().unwrap();
    let mut bytes = bs58::decode(&kp.secret).into_vec().unwrap();
    let derived = bs58::decode(&send_token(&SendTokenRequest {
        destination: ZERO_ADDRESS.to_string(),
        mint: TOKEN_PROGRAM.to_string(),
        owner: kp.pubkey.clone(),
        amount: 1,
    })
    .unwrap()
    .accounts[0]
    .pubkey)
    .into_vec()
    .unwrap();
    bytes[32..].copy_from_slice(&derived);
    assert!(is_crypto(&sign(&bs58::encode(&bytes).into_string(), "m")));
}

#[test]
fn zero_amount_transfers_are_refused() {
    let r = send_sol(&SendSolRequest {
        from: ZERO_ADDRESS.to_string(),
        to: TOKEN_PROGRAM.to_string(),
        lamports: 0,
    });
    assert!(is_validation(&r));
    let r = send_token(&SendTokenRequest {
        destination: ZERO_ADDRESS.to_string(),
        mint: TOKEN_PROGRAM.to_string(),
        owner: RENT_SYSVAR.to_string(),
        amount: 0,
    });
    assert!(is_validation(&r));
}

#[test]
fn zero_amount_mint_is_accepted() {
    let r = mint_token(&MintTokenRequest {
        mint: TOKEN_PROGRAM.to_string(),
        destination: ZERO_ADDRESS.to_string(),
        authority: RENT_SYSVAR.to_string(),
        amount: 0,
    })
    .unwrap();
    assert_eq!(r.instruction_data, "BwAAAAAAAAAA");
}

#[test]
fn initialize_mint_instruction_layout() {
    let r = create_token(&CreateTokenRequest {
        mint_authority: ZERO_ADDRESS.to_string(),
        mint: TOKEN_PROGRAM.to_string(),
        decimals: 9,
    })
    .unwrap();
    assert_eq!(r.program_id, TOKEN_PROGRAM);
    assert_eq!(r.accounts.len(), 2);
    assert_eq!(r.accounts[0].pubkey, TOKEN_PROGRAM);
    assert!(r.accounts[0].is_writable && !r.accounts[0].is_signer);
    assert_eq!(r.accounts[1].pubkey, RENT_SYSVAR);
    assert!(!r.accounts[1].is_writable && !r.accounts[1].is_signer);
    let data = b64_decode(&r.instruction_data);
    assert_eq!(data[0], 0);
    assert_eq!(r.instruction_data, "AAkAAAAAAAAAAAAAAAAAAAAAAAAAAAAAAAAAAAAAAAAAAAA=");
}

#[test]
fn native_transfer_instruction_layout() {
    let r = send_sol(&SendSolRequest {
        from: TOKEN_PROGRAM.to_string(),
        to: RENT_SYSVAR.to_string(),
        lamports: 1000,
    })
    .unwrap();
    assert_eq!(r.program_id, ZERO_ADDRESS);
    assert_eq!(r.accounts.len(), 2);
    assert_eq!(r.accounts[0].pubkey, TOKEN_PROGRAM);
    assert!(r.accounts[0].is_writable && r.accounts[0].is_signer);
    assert_eq!(r.accounts[1].pubkey, RENT_SYSVAR);
    assert!(r.accounts[1].is_writable && !r.accounts[1].is_signer);
    assert_eq!(r.instruction_data, "AgAAAOgDAAAAAAAA");
}

#[test]
fn mint_to_instruction_layout() {
    let r = mint_token(&MintTokenRequest {
        mint: TOKEN_PROGRAM.to_string(),
        destination: ZERO_ADDRESS.to_string(),
        authority: RENT_SYSVAR.to_string(),
        amount: 42,
    })
    .unwrap();
    assert_eq!(r.program_id, TOKEN_PROGRAM);
    let keys: Vec<&str> = r.accounts.iter().map(|a| a.pubkey.as_str()).collect();
    assert_eq!(keys, vec![TOKEN_PROGRAM, ZERO_ADDRESS, RENT_SYSVAR]);
    let flags: Vec<(bool, bool)> = r.accounts.iter().map(|a| (a.is_signer, a.is_writable)).collect();
    assert_eq!(flags, vec![(false, true), (false, true), (true, false)]);
    assert_eq!(r.instruction_data, "ByoAAAAAAAAA");
}

#[test]
fn token_transfer_uses_associated_accounts() {
    let owner = generate_keypair().unwrap();
    let destination = generate_keypair().unwrap();
    let r = send_token(&SendTokenRequest {
        destination: destination.pubkey.clone(),
        mint: TOKEN_PROGRAM.to_string(),
        owner: owner.pubkey.clone(),
        amount: 5,
    })
    .unwrap();
    assert_eq!(r.program_id, TOKEN_PROGRAM);
    assert_eq!(r.accounts.len(), 3);
    assert_ne!(r.accounts[0].pubkey, owner.pubkey);
    assert_ne!(r.accounts[1].pubkey, destination.pubkey);
    assert_ne!(r.accounts[0].pubkey, r.accounts[1].pubkey);
    assert_eq!(r.accounts[2].pubkey, owner.pubkey);
    let flags: Vec<(bool, bool)> = r.accounts.iter().map(|a| (a.is_signer, a.is_writable)).collect();
    assert_eq!(flags, vec![(false, true), (false, true), (true, false)]);
    assert_eq!(r.instruction_data, "AwUAAAAAAAAA");
    // the derivation is deterministic
    let again = send_token(&SendTokenRequest {
        destination: destination.pubkey.clone(),
        mint: TOKEN_PROGRAM.to_string(),
        owner: owner.pubkey.clone(),
        amount: 5,
    })
    .unwrap();
    assert_eq!(again.accounts[0].pubkey, r.accounts[0].pubkey);
    assert_eq!(again.accounts[1].pubkey, r.accounts[1].pubkey);
}

#[test]
fn malformed_addresses_are_validation_errors() {
    let bad = [
        "",
        "0OIl",
        "1111111111111111111111111111111",
        "111111111111111111111111111111111",
        "TokenkegQfeZyiNwAJbNbGKPFXCWuBvf9Ss623VQ5DAx",
        "TokenkegQfeZyiNwAJbNbGKPFXCWuBvf9Ss623VQ5DA111",
    ];
    for b in bad {
        assert!(is_validation(&create_token(&CreateTokenRequest {
            mint_authority: b.to_string(),
            mint: TOKEN_PROGRAM.to_string(),
            decimals: 6,
        })));
        assert!(is_validation(&create_token(&CreateTokenRequest {
            mint_authority: TOKEN_PROGRAM.to_string(),
            mint: b.to_string(),
            decimals: 6,
        })));
        assert!(is_validation(&mint_token(&MintTokenRequest {
            mint: TOKEN_PROGRAM.to_string(),
            destination: b.to_string(),
            authority: ZERO_ADDRESS.to_string(),
            amount: 1,
        })));
        assert!(is_validation(&send_sol(&SendSolRequest {
            from: ZERO_ADDRESS.to_string(),
            to: b.to_string(),
            lamports: 1,
        })));
        assert!(is_validation(&send_token(&SendTokenRequest {
            destination: ZERO_ADDRESS.to_string(),
            mint: TOKEN_PROGRAM.to_string(),
            owner: b.to_string(),
            amount: 1,
        })));
    }
}

#[test]
fn error_status_codes_and_messages() {
    assert_eq!(ServerError::ValidationError("x".to_string()).status_code(), 400);
    assert_eq!(ServerError::CryptoError("x".to_string()).status_code(), 400);
    assert_eq!(ServerError::TokenError("x".to_string()).status_code(), 400);
    assert_eq!(ServerError::EncodingError("x".to_string()).status_code(), 400);
    assert_eq!(ServerError::InternalError.status_code(), 500);
    assert_eq!(ServerError::ValidationError("bad".to_string()).message(), "Invalid input: bad");
    assert_eq!(ServerError::CryptoError("e".to_string()).message(), "Cryptographic error: e");
    assert_eq!(ServerError::TokenError("t".to_string()).message(), "Token program error: t");
    assert_eq!(ServerError::EncodingError("c".to_string()).message(), "Encoding error: c");
    assert_eq!(ServerError::InternalError.message(), "Internal server error");
}

#[test]
fn response_envelope() {
    let ok = ApiResponse::success(7u32);
    assert!(ok.success && ok.data == Some(7) && ok.error.is_none());
    let err: ApiResponse<u32> = ApiResponse::error("boom".to_string());
    assert!(!err.success && err.data.is_none() && err.error.as_deref() == Some("boom"));
}

fn text<T>(r: &Result<T, ServerError>) -> String {
    match r {
        Err(ServerError::ValidationError(m)) => m.clone(),
        _ => String::new(),
    }
}

#[test]
fn client_error_maps_to_bad_gateway() {
    let e = ServerError::SolanaClientError("rpc down".to_string());
    assert_eq!(e.status_code(), 502);
    assert_eq!(e.message(), "Solana client error: rpc down");
}

#[test]
fn short_public_key_is_crypto_error() {
    assert!(is_crypto(&verify("1111", "hi", &b64(&[0u8; 64]))));
}

#[test]
fn error_texts_name_the_failing_input() {
    assert_eq!(text(&sign("0OIl", "hello")), "Invalid secret key format");
    assert_eq!(text(&sign("1111", "hello")), "Invalid secret key length");
    assert_eq!(text(&verify("1111", "hi", "AAAA")), "Invalid signature length");
    assert_eq!(text(&verify("0OIl", "hi", &b64(&[0u8; 64]))), "Invalid public key format");
    assert_eq!(text(&verify(ZERO_ADDRESS, "hi", "!!!!")), "Invalid signature format");
    let c = |a: &str, m: &str| create_token(&CreateTokenRequest { mint_authority: a.to_string(), mint: m.to_string(), decimals: 9 });
    assert_eq!(text(&c("1111", RENT_SYSVAR)), "Invalid mint authority pubkey");
    assert_eq!(text(&c(RENT_SYSVAR, "1111")), "Invalid mint pubkey");
    let m = |mint: &str, d: &str, a: &str| mint_token(&MintTokenRequest {
        mint: mint.to_string(),
        destination: d.to_string(),
        authority: a.to_string(),
        amount: 5,
    });
    assert_eq!(text(&m("1111", "1111", "1111")), "Invalid mint address");
    assert_eq!(text(&m(RENT_SYSVAR, "1111", ZERO_ADDRESS)), "Invalid destination address");
    assert_eq!(text(&m(RENT_SYSVAR, ZERO_ADDRESS, "1111")), "Invalid authority address");
    let s = |f: &str, t: &str, l: u64| send_sol(&SendSolRequest { from: f.to_string(), to: t.to_string(), lamports: l });
    assert_eq!(text(&s("1111", "1111", 0)), "Invalid sender address");
    assert_eq!(text(&s(TOKEN_PROGRAM, "1111", 1000)), "Invalid recipient address");
    assert_eq!(text(&s(TOKEN_PROGRAM, RENT_SYSVAR, 0)), "Amount must be greater than 0");
    let t = |d: &str, mint: &str, o: &str, a: u64| send_token(&SendTokenRequest {
        destination: d.to_string(),
        mint: mint.to_string(),
        owner: o.to_string(),
        amount: a,
    });
    assert_eq!(text(&t("1111", "1111", "1111", 0)), "Invalid destination address");
    assert_eq!(text(&t(ZERO_ADDRESS, "1111", "1111", 0)), "Invalid mint address");
    assert_eq!(text(&t(ZERO_ADDRESS, TOKEN_PROGRAM, "1111", 0)), "Invalid owner address");
    assert_eq!(text(&t(ZERO_ADDRESS, TOKEN_PROGRAM, RENT_SYSVAR, 0)), "Amount must be greater than 0");
}
