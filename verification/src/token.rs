//! The structure of a bearer token: three dot-separated segments, of which
//! the first decodes (base64url) to a JSON header carrying the signature
//! algorithm and the key identifier.
//!
//! Splitting is verified byte by byte against the positions of the '.'
//! separators; only the base64url decoding and the JSON field extraction go
//! through trusted wrappers.

use vstd::prelude::*;

use base64::Engine;

use crate::errors::AuthError;

verus! {

/// The positions of the '.' bytes of `s`, in order.
pub open spec fn dot_positions(s: Seq<u8>) -> Seq<int>
    decreases s.len(),
{
    if s.len() == 0 {
        Seq::empty()
    } else {
        dot_positions(s.drop_last()) + if s.last() == ('.' as u8) {
            seq![s.len() - 1]
        } else {
            Seq::empty()
        }
    }
}

/// A token has three segments exactly when it carries exactly two '.'
/// separators.
pub open spec fn has_three_segments(s: Seq<u8>) -> bool {
    dot_positions(s).len() == 2
}

/// Every listed position is a '.' within bounds, and the list is strictly
/// increasing.
pub proof fn lemma_dot_positions_bounds(s: Seq<u8>)
    ensures
        forall|k: int|
            0 <= k < dot_positions(s).len() ==> 0 <= #[trigger] dot_positions(s)[k] < s.len()
                && s[dot_positions(s)[k]] == ('.' as u8),
        forall|k: int, l: int|
            0 <= k < l < dot_positions(s).len() ==> dot_positions(s)[k] < dot_positions(s)[l],
    decreases s.len(),
{
    if s.len() > 0 {
        lemma_dot_positions_bounds(s.drop_last());
        assert(forall|k: int|
            0 <= k < dot_positions(s.drop_last()).len() ==> s[#[trigger] dot_positions(
                s.drop_last(),
            )[k]] == s.drop_last()[dot_positions(s.drop_last())[k]]);
    }
}

/// The first segment of a three-segment token: the bytes before the first
/// separator.
pub open spec fn header_seg(token: Seq<u8>) -> Seq<u8>
    recommends
        has_three_segments(token),
{
    token.subrange(0, dot_positions(token)[0])
}

/// The second segment of a three-segment token: the bytes between the two
/// separators.
pub open spec fn payload_seg(token: Seq<u8>) -> Seq<u8>
    recommends
        has_three_segments(token),
{
    token.subrange(dot_positions(token)[0] + 1, dot_positions(token)[1])
}

/// The third segment of a three-segment token: the bytes after the second
/// separator.
pub open spec fn signature_seg(token: Seq<u8>) -> Seq<u8>
    recommends
        has_three_segments(token),
{
    token.subrange(dot_positions(token)[1] + 1, token.len() as int)
}

/// The signing input of a three-segment token: the bytes up to the second
/// separator, i.e. header '.' payload.
pub open spec fn message_seg(token: Seq<u8>) -> Seq<u8>
    recommends
        has_three_segments(token),
{
    token.subrange(0, dot_positions(token)[1])
}

/// The three segments of a token, together with the signing input (the
/// bytes up to the second separator, i.e. header '.' payload).
pub struct TokenParts {
    pub header_seg: Vec<u8>,
    pub payload_seg: Vec<u8>,
    pub signature_seg: Vec<u8>,
    pub message: Vec<u8>,
}

/// The parts stand to `token` exactly as the two separator positions
/// dictate.
pub open spec fn parts_match(p: TokenParts, token: Seq<u8>) -> bool {
    &&& has_three_segments(token)
    &&& p.header_seg@ == header_seg(token)
    &&& p.payload_seg@ == payload_seg(token)
    &&& p.signature_seg@ == signature_seg(token)
    &&& p.message@ == message_seg(token)
}

/// Split a token on '.': three segments or nothing.
pub fn split_token(token: &[u8]) -> (r: Option<TokenParts>)
    ensures
        r is Some <==> has_three_segments(token@),
        match r {
            Some(p) => parts_match(p, token@),
            None => true,
        },
{
    let len = token.len();
    let mut dots: Vec<usize> = Vec::new();
    let mut i: usize = 0;
    while i < len
        invariant
            len == token@.len(),
            0 <= i <= len,
            dots@.map_values(|x: usize| x as int) == dot_positions(token@.subrange(0, i as int)),
        decreases len - i,
    {
        proof {
            assert(token@.subrange(0, i + 1).drop_last() =~= token@.subrange(0, i as int));
            assert(token@.subrange(0, i + 1).last() == token@[i as int]);
        }
        if *vstd::slice::slice_index_get(token, i) == ('.' as u8) {
            dots.push(i);
            proof {
                assert(dots@.map_values(|x: usize| x as int) =~= dot_positions(
                    token@.subrange(0, i as int),
                ) + seq![i as int]);
            }
        }
        i += 1;
    }
    proof {
        assert(token@.subrange(0, len as int) =~= token@);
        lemma_dot_positions_bounds(token@);
    }
    if dots.len() != 2 {
        return None;
    }
    let d0 = dots[0];
    let d1 = dots[1];
    proof {
        assert(d0 as int == dot_positions(token@)[0]);
        assert(d1 as int == dot_positions(token@)[1]);
    }
    let header_seg = vstd::slice::slice_to_vec(vstd::slice::slice_subrange(token, 0, d0));
    let payload_seg = vstd::slice::slice_to_vec(vstd::slice::slice_subrange(token, d0 + 1, d1));
    let signature_seg = vstd::slice::slice_to_vec(vstd::slice::slice_subrange(token, d1 + 1, len));
    let message = vstd::slice::slice_to_vec(vstd::slice::slice_subrange(token, 0, d1));
    Some(TokenParts { header_seg, payload_seg, signature_seg, message })
}

/// The decoding of `s` as unpadded base64url: nothing when `s` is not valid
/// unpadded base64url text, otherwise the decoded bytes. The result depends
/// on `s` alone.
pub uninterp spec fn b64url_decode_of(s: Seq<u8>) -> Option<Seq<u8>>;

/// Relies on base64's `Engine::decode` with the `URL_SAFE_NO_PAD` engine:
/// decodes unpadded base64url, refusing any other input, and depends on the
/// input bytes alone.
#[verifier::external_body]
pub(crate) fn b64url_decode(s: &[u8]) -> (r: Option<Vec<u8>>)
    ensures
        match r {
            Some(v) => b64url_decode_of(s@) == Some(v@),
            None => b64url_decode_of(s@) is None,
        },
{
    base64::engine::general_purpose::URL_SAFE_NO_PAD.decode(s).ok()
}

/// The "alg" and "kid" members of a JSON object: nothing when `b` is not a
/// JSON object carrying both as strings, otherwise the pair of their
/// values. The result depends on `b` alone.
pub uninterp spec fn header_fields_of(b: Seq<u8>) -> Option<(Seq<char>, Seq<char>)>;

/// Relies on serde_json::from_slice, serde_json::Value::get and
/// serde_json::Value::as_str: reads the "alg" and "kid" string members of a
/// JSON object and hands them through unchanged.
#[verifier::external_body]
fn parse_header_fields(b: &[u8]) -> (r: Option<(String, String)>)
    ensures
        match r {
            Some(f) => header_fields_of(b@) == Some((f.0@, f.1@)),
            None => header_fields_of(b@) is None,
        },
{
    let v: serde_json::Value = serde_json::from_slice(b).ok()?;
    let alg = v.get("alg")?.as_str()?;
    let kid = v.get("kid")?.as_str()?;
    Some((alg.to_string(), kid.to_string()))
}

/// The decoded header of a token: the declared signature algorithm and the
/// identifier of the signing key.
pub struct TokenHeader {
    pub algorithm: String,
    pub key_id: String,
}

/// What parsing a header segment yields: the "alg" and "kid" members of the
/// base64url-decoded JSON object, or a malformed-token failure at either
/// step.
pub open spec fn spec_parse_header(seg: Seq<u8>) -> Result<(Seq<char>, Seq<char>), AuthError> {
    match b64url_decode_of(seg) {
        None => Err(AuthError::MalformedToken),
        Some(bytes) => match header_fields_of(bytes) {
            None => Err(AuthError::MalformedToken),
            Some(f) => Ok(f),
        },
    }
}

/// Decode a header segment: base64url, then the "alg" and "kid" members of
/// the resulting JSON object.
pub fn parse_header(seg: &[u8]) -> (r: Result<TokenHeader, AuthError>)
    ensures
        match spec_parse_header(seg@) {
            Ok(f) => r matches Ok(h) && h.algorithm@ == f.0 && h.key_id@ == f.1,
            Err(e) => r == Err::<TokenHeader, AuthError>(e),
        },
{
    let bytes = match b64url_decode(seg) {
        Some(v) => v,
        None => {
            return Err(AuthError::MalformedToken);
        },
    };
    match parse_header_fields(bytes.as_slice()) {
        Some(f) => Ok(TokenHeader { algorithm: f.0, key_id: f.1 }),
        None => Err(AuthError::MalformedToken),
    }
}

} // verus!
