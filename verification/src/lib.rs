//! A request authorizer for an API gateway: given a bearer token, the
//! identifier of the protected resource, the body of a fetched signing-key
//! set and a clock reading, it decides whether to allow the call and renders
//! the decision as a structured access-policy document.
//!
//! The decision pipeline is verified; the outside work (base64 decoding,
//! JSON parsing, RSA signature verification) is called through a small set
//! of trusted wrappers.

pub mod authorize;
pub mod claims;
pub mod errors;
pub mod keyset;
pub mod laws;
pub mod policy;
pub mod rs256;
pub mod token;
