//! The signing-key set: parsing the fetched JSON body into key records and
//! resolving the key that matches a token's key identifier.
//!
//! A fetched body is a JSON object whose "keys" member is an array of JSON
//! Web Key objects. Each record keeps the "kid", "n" and "e" members as they
//! stood in the body (absent or non-string members are kept as absent), so
//! that resolution can be verified: the first record whose identifier
//! matches wins, and a matching record without modulus or exponent is a key
//! format failure.

use vstd::prelude::*;

use crate::errors::AuthError;

verus! {

/// One record of a fetched signing-key set, as it stood in the JSON body:
/// each member is present exactly when the object carried it as a string.
pub struct JwksEntry {
    pub kid: Option<String>,
    pub n: Option<String>,
    pub e: Option<String>,
}

/// The mathematical model of one key record.
pub ghost struct JwksEntryModel {
    pub kid: Option<Seq<char>>,
    pub n: Option<Seq<char>>,
    pub e: Option<Seq<char>>,
}

impl View for JwksEntry {
    type V = JwksEntryModel;

    open spec fn view(&self) -> JwksEntryModel {
        JwksEntryModel {
            kid: match self.kid {
                Some(s) => Some(s@),
                None => None,
            },
            n: match self.n {
                Some(s) => Some(s@),
                None => None,
            },
            e: match self.e {
                Some(s) => Some(s@),
                None => None,
            },
        }
    }
}

/// A fetched signing-key set: the records of the body's "keys" array, in
/// body order.
pub struct SigningKeySet {
    pub keys: Vec<JwksEntry>,
}

impl View for SigningKeySet {
    type V = Seq<JwksEntryModel>;

    open spec fn view(&self) -> Seq<JwksEntryModel> {
        self.keys@.map_values(|k: JwksEntry| k@)
    }
}

/// A resolved signing key: the identifier that was looked up together with
/// the base64url modulus and exponent of the matching record.
pub struct SigningKey {
    pub key_id: String,
    pub modulus: String,
    pub exponent: String,
}

/// The key records that parsing a body yields: `None` when the body is not
/// a JSON object with a "keys" array, otherwise one record per array
/// element, in order, each member kept exactly when the element carries it
/// as a string.
pub uninterp spec fn jwks_entries_of(body: Seq<u8>) -> Option<Seq<JwksEntryModel>>;

/// Relies on serde_json::from_slice, serde_json::Value::get,
/// serde_json::Value::as_array and serde_json::Value::as_str: reads the
/// "keys" array of a JSON object and hands each element's "kid", "n" and
/// "e" string members through unchanged.
#[verifier::external_body]
fn parse_jwks_entries(body: &[u8]) -> (r: Option<Vec<JwksEntry>>)
    ensures
        match r {
            Some(v) => jwks_entries_of(body@) == Some(v@.map_values(|k: JwksEntry| k@)),
            None => jwks_entries_of(body@) is None,
        },
{
    let root: serde_json::Value = serde_json::from_slice(body).ok()?;
    let keys = root.get("keys")?.as_array()?;
    let mut out: Vec<JwksEntry> = Vec::new();
    for k in keys {
        let kid = k.get("kid").and_then(|v| v.as_str()).map(|s| s.to_string());
        let n = k.get("n").and_then(|v| v.as_str()).map(|s| s.to_string());
        let e = k.get("e").and_then(|v| v.as_str()).map(|s| s.to_string());
        out.push(JwksEntry { kid, n, e });
    }
    Some(out)
}

/// Parse a fetched body into a signing-key set; a body without a "keys"
/// array is a format failure.
pub fn parse_key_set(body: &[u8]) -> (r: Result<SigningKeySet, AuthError>)
    ensures
        match r {
            Ok(ks) => jwks_entries_of(body@) == Some(ks@),
            Err(e) => e == AuthError::Format && jwks_entries_of(body@) is None,
        },
{
    match parse_jwks_entries(body) {
        Some(v) => Ok(SigningKeySet { keys: v }),
        None => Err(AuthError::Format),
    }
}

/// The position of the first record whose identifier is `kid`.
pub open spec fn first_match(entries: Seq<JwksEntryModel>, kid: Seq<char>) -> Option<int>
    decreases entries.len(),
{
    if entries.len() == 0 {
        None
    } else if entries[0].kid == Some(kid) {
        Some(0)
    } else {
        match first_match(entries.drop_first(), kid) {
            Some(i) => Some(i + 1),
            None => None,
        }
    }
}

/// What resolving `kid` against a key set yields: the modulus and exponent
/// of the first matching record, a key-not-found failure when no record
/// matches, and a key-format failure when the matching record lacks one of
/// the components.
pub open spec fn spec_resolve(entries: Seq<JwksEntryModel>, kid: Seq<char>) -> Result<
    (Seq<char>, Seq<char>),
    AuthError,
> {
    match first_match(entries, kid) {
        None => Err(AuthError::KeyNotFound),
        Some(i) => match entries[i].n {
            None => Err(AuthError::KeyFormat),
            Some(n) => match entries[i].e {
                None => Err(AuthError::KeyFormat),
                Some(e) => Ok((n, e)),
            },
        },
    }
}

/// A record matching at `i` after a match-free prefix is the first match.
proof fn lemma_first_match_at(entries: Seq<JwksEntryModel>, kid: Seq<char>, i: int)
    requires
        0 <= i < entries.len(),
        entries[i].kid == Some(kid),
        forall|j: int| 0 <= j < i ==> entries[j].kid != Some(kid),
    ensures
        first_match(entries, kid) == Some(i),
    decreases i,
{
    if i > 0 {
        assert(forall|j: int|
            0 <= j < i - 1 ==> entries.drop_first()[j] == entries[j + 1]
                && entries[j + 1].kid != Some(kid));
        lemma_first_match_at(entries.drop_first(), kid, i - 1);
    }
}

/// With no matching record at all there is no first match.
proof fn lemma_first_match_none(entries: Seq<JwksEntryModel>, kid: Seq<char>)
    requires
        forall|j: int| 0 <= j < entries.len() ==> entries[j].kid != Some(kid),
    ensures
        first_match(entries, kid) is None,
    decreases entries.len(),
{
    if entries.len() > 0 {
        assert(forall|j: int|
            0 <= j < entries.drop_first().len() ==> entries.drop_first()[j] == entries[j + 1]
                && entries[j + 1].kid != Some(kid));
        lemma_first_match_none(entries.drop_first(), kid);
    }
}

impl SigningKeySet {
    /// Locate the key matching `kid`: a linear scan, first match wins.
    pub fn resolve_key(&self, kid: &String) -> (r: Result<SigningKey, AuthError>)
        ensures
            match spec_resolve(self@, kid@) {
                Ok(ne) => r matches Ok(k) && k.key_id@ == kid@ && k.modulus@ == ne.0
                    && k.exponent@ == ne.1,
                Err(e) => r == Err::<SigningKey, AuthError>(e),
            },
    {
        let n_keys = self.keys.len();
        let mut i: usize = 0;
        while i < n_keys
            invariant
                n_keys == self.keys.len(),
                0 <= i <= n_keys,
                forall|j: int| 0 <= j < i ==> self@[j].kid != Some(kid@),
            decreases n_keys - i,
        {
            let entry = &self.keys[i];
            let matched = match &entry.kid {
                Some(s) => *s == *kid,
                None => false,
            };
            if matched {
                proof {
                    lemma_first_match_at(self@, kid@, i as int);
                }
                let n = match &entry.n {
                    Some(s) => s.clone(),
                    None => {
                        return Err(AuthError::KeyFormat);
                    },
                };
                let e = match &entry.e {
                    Some(s) => s.clone(),
                    None => {
                        return Err(AuthError::KeyFormat);
                    },
                };
                return Ok(SigningKey { key_id: kid.clone(), modulus: n, exponent: e });
            }
            i += 1;
        }
        proof {
            lemma_first_match_none(self@, kid@);
        }
        Err(AuthError::KeyNotFound)
    }
}

} // verus!
