//! The closed taxonomy of reasons for which an authorization decision denies
//! a request. Every failure of the pipeline maps to exactly one variant, and
//! the decision returned to the caller is always a well-formed policy
//! document: the variant is recorded beside it, never propagated as a raw
//! error.

use vstd::prelude::*;

verus! {

/// Why a request was denied.
#[derive(Clone, Copy, Debug, PartialEq, Eq, Structural)]
pub enum AuthError {
    /// The token is structurally broken: it does not have three
    /// dot-separated segments, a segment is not base64url, or the decoded
    /// header is not a JSON object carrying string "alg" and "kid" members.
    MalformedToken,
    /// No key in the fetched signing-key set carries the token's key
    /// identifier.
    KeyNotFound,
    /// The matching key's modulus or exponent is absent or not base64url.
    KeyFormat,
    /// The token's signature does not verify under the resolved key.
    SignatureInvalid,
    /// The audience claim is absent or differs from the expected audience.
    AudienceMismatch,
    /// The expiry claim lies in the past.
    TokenExpired,
    /// The token's header declares an algorithm other than RS256.
    UnsupportedAlgorithm,
    /// The signing-key set could not be fetched.
    Fetch,
    /// The fetched signing-key set is not a JSON object with a "keys" array.
    Format,
}

/// The label of each variant.
pub open spec fn spec_label(e: AuthError) -> Seq<char> {
    match e {
        AuthError::MalformedToken => "malformed token"@,
        AuthError::KeyNotFound => "key not found"@,
        AuthError::KeyFormat => "key format"@,
        AuthError::SignatureInvalid => "signature invalid"@,
        AuthError::AudienceMismatch => "audience mismatch"@,
        AuthError::TokenExpired => "token expired"@,
        AuthError::UnsupportedAlgorithm => "unsupported algorithm"@,
        AuthError::Fetch => "fetch failed"@,
        AuthError::Format => "key set format"@,
    }
}

impl AuthError {
    /// A short stable label for the variant, for logs kept by callers.
    pub fn label(&self) -> (r: String)
        ensures
            r@ == spec_label(*self),
    {
        let s: &str = match self {
            AuthError::MalformedToken => "malformed token",
            AuthError::KeyNotFound => "key not found",
            AuthError::KeyFormat => "key format",
            AuthError::SignatureInvalid => "signature invalid",
            AuthError::AudienceMismatch => "audience mismatch",
            AuthError::TokenExpired => "token expired",
            AuthError::UnsupportedAlgorithm => "unsupported algorithm",
            AuthError::Fetch => "fetch failed",
            AuthError::Format => "key set format",
        };
        s.to_owned()
    }
}

} // verus!
