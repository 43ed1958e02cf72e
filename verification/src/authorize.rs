//! The authorizer service: given a bearer token, the resource being
//! invoked, the body of the fetched signing-key set and a clock reading, it
//! produces an authorization decision. Every failure of the pipeline turns
//! into an explicit Deny decision with an empty principal and the failure
//! recorded beside it; no error ever propagates to the caller.

use vstd::prelude::*;

use crate::claims::{parse_claims, spec_parse_claims, spec_validate_claims, validate_claims};
use crate::errors::AuthError;
use crate::keyset::{jwks_entries_of, parse_key_set, spec_resolve, JwksEntryModel};
use crate::policy::{build_decision, decision_matches, AuthorizationDecision, Effect};
use crate::rs256::{check_signature, spec_check_signature};
use crate::token::{
    has_three_segments, header_seg, message_seg, parse_header, payload_seg, signature_seg,
    spec_parse_header, split_token,
};

verus! {

/// The outcome of one authorization call: the decision handed to the
/// gateway, and — where the decision denies — the reason, kept for the
/// caller's own records and never rendered into the decision.
#[derive(Clone, Debug, PartialEq)]
pub struct AuthOutcome {
    pub decision: AuthorizationDecision,
    pub denial: Option<AuthError>,
}

/// The outcome `o` renders the verdict on `resource`: an Allow decision
/// for the verdict's principal, or a Deny decision with an empty principal
/// and the verdict's failure recorded.
pub open spec fn outcome_matches(
    o: AuthOutcome,
    verdict: Result<Seq<char>, AuthError>,
    resource: Seq<char>,
) -> bool {
    match verdict {
        Ok(principal) => o.denial is None && decision_matches(
            o.decision,
            principal,
            Effect::Allow,
            resource,
        ),
        Err(err) => o.denial == Some(err) && decision_matches(
            o.decision,
            Seq::empty(),
            Effect::Deny,
            resource,
        ),
    }
}

/// The verdict of the whole pipeline on one token, as a function of the
/// token bytes, the parsed records of the key-set body, the expected
/// audience and the clock reading: the principal on success, the first
/// failure otherwise. The stages stand in pipeline order — token shape,
/// header, algorithm allow-list, key-set format, key resolution, signature,
/// claims — so the earliest failing stage names the failure.
pub open spec fn spec_decide(
    token: Seq<u8>,
    entries: Option<Seq<JwksEntryModel>>,
    audience: Seq<char>,
    now: u64,
) -> Result<Seq<char>, AuthError> {
    if !has_three_segments(token) {
        Err(AuthError::MalformedToken)
    } else {
        match spec_parse_header(header_seg(token)) {
            Err(e) => Err(e),
            Ok(f) => if f.0 != "RS256"@ {
                Err(AuthError::UnsupportedAlgorithm)
            } else {
                match entries {
                    None => Err(AuthError::Format),
                    Some(es) => match spec_resolve(es, f.1) {
                        Err(e) => Err(e),
                        Ok(ne) => match spec_check_signature(
                            message_seg(token),
                            signature_seg(token),
                            ne.0,
                            ne.1,
                        ) {
                            Err(e) => Err(e),
                            Ok(_) => match spec_parse_claims(payload_seg(token)) {
                                Err(e) => Err(e),
                                Ok(c) => spec_validate_claims(c, audience, now),
                            },
                        },
                    },
                }
            },
        }
    }
}

/// The authorizer service, configured with the audience a token must be
/// issued for. The key-set URL stays with the caller, which performs the
/// fetch and hands the body in.
pub struct AuthorizerService {
    pub expected_audience: String,
}

impl AuthorizerService {
    /// Configure a service for the given expected audience.
    pub fn new(expected_audience: String) -> (s: AuthorizerService)
        ensures
            s.expected_audience == expected_audience,
    {
        AuthorizerService { expected_audience }
    }

    /// The token-shape check that precedes the key-set fetch: a token
    /// without exactly three segments is denied outright, from the token
    /// alone — no key set is consulted, so no fetch need be performed.
    pub fn precheck(&self, token: &[u8], method_arn: &str) -> (r: Option<AuthOutcome>)
        ensures
            r is None <==> has_three_segments(token@),
            match r {
                Some(o) => outcome_matches(
                    o,
                    Err(AuthError::MalformedToken),
                    method_arn@,
                ),
                None => true,
            },
    {
        match split_token(token) {
            Some(_) => None,
            None => Some(
                AuthOutcome {
                    decision: build_decision(String::new(), Effect::Deny, method_arn),
                    denial: Some(AuthError::MalformedToken),
                },
            ),
        }
    }

    /// Run the pipeline on one token: returns the principal on success and
    /// the first failure otherwise.
    fn decide(&self, token: &[u8], key_set_body: &[u8], now: u64) -> (r: Result<String, AuthError>)
        ensures
            match spec_decide(
                token@,
                jwks_entries_of(key_set_body@),
                self.expected_audience@,
                now,
            ) {
                Ok(p) => r matches Ok(s) && s@ == p,
                Err(e) => r == Err::<String, AuthError>(e),
            },
    {
        let parts = match split_token(token) {
            Some(p) => p,
            None => {
                return Err(AuthError::MalformedToken);
            },
        };
        let header = match parse_header(parts.header_seg.as_slice()) {
            Ok(h) => h,
            Err(e) => {
                return Err(e);
            },
        };
        let rs256: String = "RS256".to_owned();
        if header.algorithm != rs256 {
            return Err(AuthError::UnsupportedAlgorithm);
        }
        let key_set = match parse_key_set(key_set_body) {
            Ok(ks) => ks,
            Err(e) => {
                return Err(e);
            },
        };
        let key = match key_set.resolve_key(&header.key_id) {
            Ok(k) => k,
            Err(e) => {
                return Err(e);
            },
        };
        match check_signature(parts.message.as_slice(), parts.signature_seg.as_slice(), &key) {
            Ok(_) => {},
            Err(e) => {
                return Err(e);
            },
        }
        let claims = match parse_claims(parts.payload_seg.as_slice()) {
            Ok(c) => c,
            Err(e) => {
                return Err(e);
            },
        };
        validate_claims(&claims, &self.expected_audience, now)
    }

    /// Decide one request: evaluate the token against the fetched key-set
    /// body and the clock, and render the verdict as an Allow decision for
    /// the token's subject or a Deny decision with the failure recorded.
    pub fn evaluate(&self, token: &[u8], method_arn: &str, key_set_body: &[u8], now: u64) -> (r:
        AuthOutcome)
        ensures
            outcome_matches(
                r,
                spec_decide(
                    token@,
                    jwks_entries_of(key_set_body@),
                    self.expected_audience@,
                    now,
                ),
                method_arn@,
            ),
    {
        match self.decide(token, key_set_body, now) {
            Ok(principal) => AuthOutcome {
                decision: build_decision(principal, Effect::Allow, method_arn),
                denial: None,
            },
            Err(e) => AuthOutcome {
                decision: build_decision(String::new(), Effect::Deny, method_arn),
                denial: Some(e),
            },
        }
    }
}

/// Render a failure that arose outside the pipeline — a fetch that never
/// produced a body, say — as the explicit Deny outcome the caller owes the
/// gateway.
pub fn deny(err: AuthError, method_arn: &str) -> (r: AuthOutcome)
    ensures
        outcome_matches(r, Err(err), method_arn@),
{
    AuthOutcome {
        decision: build_decision(String::new(), Effect::Deny, method_arn),
        denial: Some(err),
    }
}

/// Whether an HTTP status answers a key-set fetch successfully: the 2xx
/// range.
pub fn status_is_success(status: u16) -> (r: bool)
    ensures
        r == (200 <= status < 300),
{
    200 <= status && status < 300
}

} // verus!
