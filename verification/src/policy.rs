//! Rendering of authorization decisions as access-policy documents: a fixed
//! version string and a single statement naming the action, the effect and
//! the resource. Building a policy is pure and cannot fail.

use vstd::prelude::*;

verus! {

/// Whether the statement grants or refuses the invocation.
#[derive(Clone, Copy, Debug, PartialEq, Eq, Structural)]
pub enum Effect {
    Allow,
    Deny,
}

/// One entry of a policy document: an action on a resource, allowed or
/// denied.
#[derive(Clone, Debug, PartialEq)]
pub struct AccessStatement {
    pub action: String,
    pub effect: Effect,
    pub resource: String,
}

/// The policy document consumed by the calling gateway.
#[derive(Clone, Debug, PartialEq)]
pub struct AccessPolicyDocument {
    pub version: String,
    pub statements: Vec<AccessStatement>,
}

/// The outcome of one authorization call: the asserted principal and the
/// policy that scopes it to the requested resource.
#[derive(Clone, Debug, PartialEq)]
pub struct AuthorizationDecision {
    pub principal_id: String,
    pub policy_document: AccessPolicyDocument,
}

/// The document `doc` is exactly the single-statement policy for `effect`
/// on `resource`.
pub open spec fn policy_matches(
    doc: AccessPolicyDocument,
    effect: Effect,
    resource: Seq<char>,
) -> bool {
    &&& doc.version@ == "2012-10-17"@
    &&& doc.statements@.len() == 1
    &&& doc.statements@[0].action@ == "execute-api:Invoke"@
    &&& doc.statements@[0].effect == effect
    &&& doc.statements@[0].resource@ == resource
}

/// The decision `d` asserts `principal` and carries exactly the
/// single-statement policy for `effect` on `resource`.
pub open spec fn decision_matches(
    d: AuthorizationDecision,
    principal: Seq<char>,
    effect: Effect,
    resource: Seq<char>,
) -> bool {
    &&& d.principal_id@ == principal
    &&& policy_matches(d.policy_document, effect, resource)
}

/// Render an effect on a resource as a policy document with exactly one
/// statement for the gateway invoke action.
pub fn build_policy(effect: Effect, resource: &str) -> (doc: AccessPolicyDocument)
    ensures
        policy_matches(doc, effect, resource@),
{
    let statement = AccessStatement {
        action: "execute-api:Invoke".to_owned(),
        effect,
        resource: resource.to_owned(),
    };
    let mut statements: Vec<AccessStatement> = Vec::new();
    statements.push(statement);
    AccessPolicyDocument { version: "2012-10-17".to_owned(), statements }
}

/// Render a full decision: the given principal together with the
/// single-statement policy for `effect` on `resource`.
pub fn build_decision(principal_id: String, effect: Effect, resource: &str) -> (d:
    AuthorizationDecision)
    ensures
        decision_matches(d, principal_id@, effect, resource@),
{
    AuthorizationDecision { principal_id, policy_document: build_policy(effect, resource) }
}

} // verus!
