use vstd::prelude::*;

verus! {

/// Failure kinds of the service's operations.
#[derive(Debug)]
pub enum ServerError {
    /// Malformed or out-of-contract input.
    ValidationError(String),
    /// A ledger client failed; none of this library's operations raises it.
    SolanaClientError(String),
    /// Bytes that decode but are not a valid key, key pair or signature.
    CryptoError(String),
    /// The token program's instruction builder refused its inputs.
    TokenError(String),
    /// A value could not be encoded.
    EncodingError(String),
    /// An unexpected failure the caller cannot fix.
    InternalError,
}

/// The HTTP status that each failure kind maps to.
pub open spec fn status_of(e: ServerError) -> u16 {
    match e {
        ServerError::InternalError => 500,
        ServerError::SolanaClientError(_) => 502,
        _ => 400,
    }
}

impl ServerError {
    /// Status code under which the transport reports this failure.
    pub fn status_code(&self) -> (r: u16)
        ensures
            r == status_of(*self),
    {
        match self {
            ServerError::ValidationError(_) => 400,
            ServerError::SolanaClientError(_) => 502,
            ServerError::CryptoError(_) => 400,
            ServerError::TokenError(_) => 400,
            ServerError::EncodingError(_) => 400,
            ServerError::InternalError => 500,
        }
    }

    /// Human-readable text of the failure, prefixed by its kind.
    pub fn message(&self) -> (r: String)
        ensures
            r@ == message_of(*self),
    {
        match self {
            ServerError::ValidationError(m) => prefixed("Invalid input: ", m),
            ServerError::SolanaClientError(m) => prefixed("Solana client error: ", m),
            ServerError::CryptoError(m) => prefixed("Cryptographic error: ", m),
            ServerError::TokenError(m) => prefixed("Token program error: ", m),
            ServerError::EncodingError(m) => prefixed("Encoding error: ", m),
            ServerError::InternalError => String::from_str("Internal server error"),
        }
    }
}

/// The text that `message` gives for each failure.
pub open spec fn message_of(e: ServerError) -> Seq<char> {
    match e {
        ServerError::ValidationError(m) => "Invalid input: "@ + m@,
        ServerError::SolanaClientError(m) => "Solana client error: "@ + m@,
        ServerError::CryptoError(m) => "Cryptographic error: "@ + m@,
        ServerError::TokenError(m) => "Token program error: "@ + m@,
        ServerError::EncodingError(m) => "Encoding error: "@ + m@,
        ServerError::InternalError => "Internal server error"@,
    }
}

fn prefixed(prefix: &str, m: &String) -> (r: String)
    ensures
        r@ == prefix@ + m@,
{
    let mut s = String::from_str(prefix);
    s.append(m.as_str());
    s
}

} // verus!
