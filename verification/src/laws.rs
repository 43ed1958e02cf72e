//! The laws of the authorizer, stated over the spec functions that the
//! executable contracts use. Each law is a corollary of `spec_decide`,
//! which `AuthorizerService::evaluate` pins its result to, so each also
//! governs the decisions the service hands out.

use vstd::prelude::*;

use crate::authorize::spec_decide;
use crate::claims::{spec_parse_claims, ClaimsModel};
use crate::errors::AuthError;
use crate::keyset::{first_match, spec_resolve, JwksEntryModel};
use crate::rs256::{rs256_verify_of, rsa_components_ok};
use crate::token::{
    has_three_segments, header_seg, message_seg, payload_seg, signature_seg, spec_parse_header,
};

verus! {

/// A well-formed RS256 token whose key identifier resolves in the key set
/// and whose signature, audience and expiry all validate is allowed, and
/// the principal is the token's subject claim (the empty string where the
/// claim is absent).
pub proof fn lemma_valid_token_allows(
    token: Seq<u8>,
    entries: Seq<JwksEntryModel>,
    audience: Seq<char>,
    now: u64,
    alg: Seq<char>,
    kid: Seq<char>,
    n: Seq<char>,
    e: Seq<char>,
    c: ClaimsModel,
)
    requires
        has_three_segments(token),
        spec_parse_header(header_seg(token)) == Ok::<(Seq<char>, Seq<char>), AuthError>(
            (alg, kid),
        ),
        alg == "RS256"@,
        spec_resolve(entries, kid) == Ok::<(Seq<char>, Seq<char>), AuthError>((n, e)),
        rsa_components_ok(n, e),
        rs256_verify_of(message_seg(token), signature_seg(token), n, e) == Some(true),
        spec_parse_claims(payload_seg(token)) == Ok::<ClaimsModel, AuthError>(c),
        c.aud == Some(audience),
        c.exp matches Some(x) ==> x >= now,
    ensures
        spec_decide(token, Some(entries), audience, now) == Ok::<Seq<char>, AuthError>(
            match c.sub {
                Some(s) => s,
                None => Seq::<char>::empty(),
            },
        ),
{
}

/// A token whose key identifier matches no record of the key set is
/// denied for want of a key.
pub proof fn lemma_unknown_key_denies(
    token: Seq<u8>,
    entries: Seq<JwksEntryModel>,
    audience: Seq<char>,
    now: u64,
    alg: Seq<char>,
    kid: Seq<char>,
)
    requires
        has_three_segments(token),
        spec_parse_header(header_seg(token)) == Ok::<(Seq<char>, Seq<char>), AuthError>(
            (alg, kid),
        ),
        alg == "RS256"@,
        first_match(entries, kid) is None,
    ensures
        spec_decide(token, Some(entries), audience, now) == Err::<Seq<char>, AuthError>(
            AuthError::KeyNotFound,
        ),
{
}

/// A token without exactly two '.' separators is denied as malformed,
/// whatever key set (or none at all) stands beside it: the verdict does
/// not consult the key set, so no fetch need precede it.
pub proof fn lemma_malformed_token_denies(
    token: Seq<u8>,
    entries: Option<Seq<JwksEntryModel>>,
    audience: Seq<char>,
    now: u64,
)
    requires
        !has_three_segments(token),
    ensures
        spec_decide(token, entries, audience, now) == Err::<Seq<char>, AuthError>(
            AuthError::MalformedToken,
        ),
{
}

/// A token whose signature does not verify under the resolved key is
/// denied.
pub proof fn lemma_bad_signature_denies(
    token: Seq<u8>,
    entries: Seq<JwksEntryModel>,
    audience: Seq<char>,
    now: u64,
    alg: Seq<char>,
    kid: Seq<char>,
    n: Seq<char>,
    e: Seq<char>,
)
    requires
        has_three_segments(token),
        spec_parse_header(header_seg(token)) == Ok::<(Seq<char>, Seq<char>), AuthError>(
            (alg, kid),
        ),
        alg == "RS256"@,
        spec_resolve(entries, kid) == Ok::<(Seq<char>, Seq<char>), AuthError>((n, e)),
        rsa_components_ok(n, e),
        rs256_verify_of(message_seg(token), signature_seg(token), n, e) != Some(true),
    ensures
        spec_decide(token, Some(entries), audience, now) == Err::<Seq<char>, AuthError>(
            AuthError::SignatureInvalid,
        ),
{
}

/// A token whose audience claim is absent or differs from the expected
/// audience is denied, even though its signature verifies.
pub proof fn lemma_audience_mismatch_denies(
    token: Seq<u8>,
    entries: Seq<JwksEntryModel>,
    audience: Seq<char>,
    now: u64,
    alg: Seq<char>,
    kid: Seq<char>,
    n: Seq<char>,
    e: Seq<char>,
    c: ClaimsModel,
)
    requires
        has_three_segments(token),
        spec_parse_header(header_seg(token)) == Ok::<(Seq<char>, Seq<char>), AuthError>(
            (alg, kid),
        ),
        alg == "RS256"@,
        spec_resolve(entries, kid) == Ok::<(Seq<char>, Seq<char>), AuthError>((n, e)),
        rsa_components_ok(n, e),
        rs256_verify_of(message_seg(token), signature_seg(token), n, e) == Some(true),
        spec_parse_claims(payload_seg(token)) == Ok::<ClaimsModel, AuthError>(c),
        c.aud != Some(audience),
    ensures
        spec_decide(token, Some(entries), audience, now) == Err::<Seq<char>, AuthError>(
            AuthError::AudienceMismatch,
        ),
{
}

/// Evaluation is idempotent: the same token, the same key-set records, the
/// same expected audience and the same clock reading yield the same
/// verdict, however often it is computed.
pub proof fn lemma_decision_idempotent(
    token1: Seq<u8>,
    token2: Seq<u8>,
    entries1: Option<Seq<JwksEntryModel>>,
    entries2: Option<Seq<JwksEntryModel>>,
    audience1: Seq<char>,
    audience2: Seq<char>,
    now1: u64,
    now2: u64,
)
    requires
        token1 == token2,
        entries1 == entries2,
        audience1 == audience2,
        now1 == now2,
    ensures
        spec_decide(token1, entries1, audience1, now1) == spec_decide(
            token2,
            entries2,
            audience2,
            now2,
        ),
{
}

} // verus!
