//! RS256 signature verification: RSA PKCS#1 v1.5 with SHA-256, the one
//! algorithm this authorizer accepts. The cryptographic work is done by
//! jsonwebtoken behind a trusted wrapper; what the wrapper returns for
//! given inputs is named, and the pipeline's contracts speak of that name.

use vstd::prelude::*;

use crate::errors::AuthError;
use crate::keyset::SigningKey;

verus! {

/// Whether jsonwebtoken accepts `n` and `e` as RSA key components: it does
/// exactly when both are valid unpadded base64url text. The result depends
/// on the components alone.
pub uninterp spec fn rsa_components_ok(n: Seq<char>, e: Seq<char>) -> bool;

/// The outcome of RS256 verification of `sig` over `msg` under the key
/// with components `n` and `e`: nothing when the signature bytes are not
/// unpadded base64url text, otherwise whether the signature verifies. The
/// result depends on the arguments alone.
pub uninterp spec fn rs256_verify_of(
    msg: Seq<u8>,
    sig: Seq<u8>,
    n: Seq<char>,
    e: Seq<char>,
) -> Option<bool>;

/// Relies on jsonwebtoken's `DecodingKey::from_rsa_components`, which
/// fails exactly when the modulus or exponent is not unpadded base64url,
/// and on `jsonwebtoken::crypto::verify` with `Algorithm::RS256`, which
/// (for an RSA key) fails exactly when the signature text — read from the
/// signature bytes with `core::str::from_utf8` — is not unpadded
/// base64url, and otherwise returns the RSA PKCS#1 v1.5 / SHA-256
/// verification outcome, a function of the message, the signature and the
/// key components alone.
#[verifier::external_body]
fn rs256_signature_check(message: &[u8], signature: &[u8], n: &str, e: &str) -> (r: Result<
    bool,
    AuthError,
>)
    ensures
        match r {
            Ok(b) => rsa_components_ok(n@, e@) && rs256_verify_of(message@, signature@, n@, e@)
                == Some(b),
            Err(err) => if err == AuthError::KeyFormat {
                !rsa_components_ok(n@, e@)
            } else {
                err == AuthError::SignatureInvalid && rsa_components_ok(n@, e@)
                    && rs256_verify_of(message@, signature@, n@, e@) is None
            },
        },
{
    let key = match jsonwebtoken::DecodingKey::from_rsa_components(n, e) {
        Ok(k) => k,
        Err(_) => return Err(AuthError::KeyFormat),
    };
    let sig = match core::str::from_utf8(signature) {
        Ok(s) => s,
        Err(_) => return Err(AuthError::SignatureInvalid),
    };
    match jsonwebtoken::crypto::verify(sig, message, &key, jsonwebtoken::Algorithm::RS256) {
        Ok(b) => Ok(b),
        Err(_) => Err(AuthError::SignatureInvalid),
    }
}

/// What checking a signature yields: a key-format failure when the
/// resolved key's components are not acceptable, and otherwise success
/// exactly when the signature text verifies over the message.
pub open spec fn spec_check_signature(
    msg: Seq<u8>,
    sig: Seq<u8>,
    n: Seq<char>,
    e: Seq<char>,
) -> Result<(), AuthError> {
    if !rsa_components_ok(n, e) {
        Err(AuthError::KeyFormat)
    } else {
        match rs256_verify_of(msg, sig, n, e) {
            Some(true) => Ok(()),
            _ => Err(AuthError::SignatureInvalid),
        }
    }
}

/// Check the token's signature over the signing input under the resolved
/// key.
pub fn check_signature(message: &[u8], signature: &[u8], key: &SigningKey) -> (r: Result<
    (),
    AuthError,
>)
    ensures
        r == spec_check_signature(message@, signature@, key.modulus@, key.exponent@),
{
    match rs256_signature_check(message, signature, key.modulus.as_str(), key.exponent.as_str()) {
        Ok(true) => Ok(()),
        Ok(false) => Err(AuthError::SignatureInvalid),
        Err(e) => Err(e),
    }
}

} // verus!
