//! The claims of a token: the payload segment decodes (base64url) to a JSON
//! object, of which the authorizer reads the subject, the audience and the
//! expiry. Validation of the read values is verified; only the base64url
//! decoding and the JSON field extraction go through trusted wrappers.

use vstd::prelude::*;

use crate::errors::AuthError;
use crate::token::b64url_decode_of;

verus! {

/// The claims the authorizer reads from a token body: each is present
/// exactly when the payload object carries it with the expected type.
pub struct TokenClaims {
    pub subject: Option<String>,
    pub audience: Option<String>,
    pub expiry: Option<u64>,
}

/// The mathematical model of the claims.
pub ghost struct ClaimsModel {
    pub sub: Option<Seq<char>>,
    pub aud: Option<Seq<char>>,
    pub exp: Option<u64>,
}

impl View for TokenClaims {
    type V = ClaimsModel;

    open spec fn view(&self) -> ClaimsModel {
        ClaimsModel {
            sub: match self.subject {
                Some(s) => Some(s@),
                None => None,
            },
            aud: match self.audience {
                Some(s) => Some(s@),
                None => None,
            },
            exp: self.expiry,
        }
    }
}

/// The claim fields of a JSON document: nothing when `b` is not JSON,
/// otherwise the "sub" and "aud" members where they are strings and the
/// "exp" member where it is a non-negative integer. The result depends on
/// `b` alone.
pub uninterp spec fn claim_fields_of(b: Seq<u8>) -> Option<ClaimsModel>;

/// Relies on serde_json::from_slice, serde_json::Value::get,
/// serde_json::Value::as_str and serde_json::Value::as_u64: reads the
/// "sub", "aud" and "exp" members of a JSON document and hands them
/// through unchanged.
#[verifier::external_body]
fn parse_claim_fields(b: &[u8]) -> (r: Option<TokenClaims>)
    ensures
        match r {
            Some(c) => claim_fields_of(b@) == Some(c@),
            None => claim_fields_of(b@) is None,
        },
{
    let v: serde_json::Value = serde_json::from_slice(b).ok()?;
    Some(TokenClaims {
        subject: v.get("sub").and_then(|x| x.as_str()).map(|s| s.to_string()),
        audience: v.get("aud").and_then(|x| x.as_str()).map(|s| s.to_string()),
        expiry: v.get("exp").and_then(|x| x.as_u64()),
    })
}

/// What parsing a payload segment yields: the claim fields of the
/// base64url-decoded JSON document, or a malformed-token failure at either
/// step.
pub open spec fn spec_parse_claims(seg: Seq<u8>) -> Result<ClaimsModel, AuthError> {
    match b64url_decode_of(seg) {
        None => Err(AuthError::MalformedToken),
        Some(bytes) => match claim_fields_of(bytes) {
            None => Err(AuthError::MalformedToken),
            Some(c) => Ok(c),
        },
    }
}

/// Decode a payload segment: base64url, then the claim fields of the
/// resulting JSON document.
pub fn parse_claims(seg: &[u8]) -> (r: Result<TokenClaims, AuthError>)
    ensures
        match spec_parse_claims(seg@) {
            Ok(c) => r matches Ok(tc) && tc@ == c,
            Err(e) => r == Err::<TokenClaims, AuthError>(e),
        },
{
    let bytes = match crate::token::b64url_decode(seg) {
        Some(v) => v,
        None => {
            return Err(AuthError::MalformedToken);
        },
    };
    match parse_claim_fields(bytes.as_slice()) {
        Some(c) => Ok(c),
        None => Err(AuthError::MalformedToken),
    }
}

/// What validating read claims yields: a denial when the audience is
/// absent or differs from the expected audience, a denial when the expiry
/// lies strictly before the clock reading, and otherwise the principal —
/// the subject claim, or the empty string where it is absent.
pub open spec fn spec_validate_claims(c: ClaimsModel, audience: Seq<char>, now: u64) -> Result<
    Seq<char>,
    AuthError,
> {
    if c.aud != Some(audience) {
        Err(AuthError::AudienceMismatch)
    } else if c.exp matches Some(x) && x < now {
        Err(AuthError::TokenExpired)
    } else {
        Ok(
            match c.sub {
                Some(s) => s,
                None => Seq::empty(),
            },
        )
    }
}

/// Validate claims against the expected audience and the clock: the
/// audience must match, the expiry (where present) must not lie in the
/// past, and the principal is the subject claim or the empty string.
pub fn validate_claims(c: &TokenClaims, audience: &String, now: u64) -> (r: Result<
    String,
    AuthError,
>)
    ensures
        match spec_validate_claims(c@, audience@, now) {
            Ok(p) => r matches Ok(s) && s@ == p,
            Err(e) => r == Err::<String, AuthError>(e),
        },
{
    let aud_ok = match &c.audience {
        Some(a) => *a == *audience,
        None => false,
    };
    if !aud_ok {
        return Err(AuthError::AudienceMismatch);
    }
    match c.expiry {
        Some(x) if x < now => {
            return Err(AuthError::TokenExpired);
        },
        _ => {},
    }
    match &c.subject {
        Some(s) => Ok(s.clone()),
        None => Ok(String::new()),
    }
}

} // verus!
