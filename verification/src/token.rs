//! Token codec: signs and checks the compact session tokens carried in
//! the auth cookie.
//!
//! A token encodes a session's slot id and its expiry claim and is
//! signed with a symmetric secret. The codec checks signature and
//! structure only; whether the claim still matches the stored session
//! is the session service's decision.

use vstd::prelude::*;

use crate::error::{Error, SessionError};
use crate::settings::Jwt;

verus! {

/// Claims carried by a session token: the session's slot id and the
/// expiry, in epoch seconds, the session had when the token was issued.
#[derive(Clone, Copy, Debug, PartialEq, Eq, Structural)]
pub struct TokenClaims {
    pub sub: u32,
    pub exp: usize,
}

/// The compact signed token produced for a signing secret and a pair of
/// claims. HS512 signing is deterministic, so the token is a function
/// of these inputs alone.
pub uninterp spec fn jwt_token_of(secret: Seq<char>, session_id: u32, expires_at: usize) -> Seq<
    char,
>;

/// The claims parsed out of a compact token when checking succeeds. A
/// token's payload is a function of the token text alone.
pub uninterp spec fn jwt_claims_of(token: Seq<char>) -> Option<(u32, usize)>;

/// Relies on jsonwebtoken::encode with Header::new(Algorithm::HS512) and
/// EncodingKey::from_secret. Signing succeeds on every input: encode
/// fails only on a key/algorithm family mismatch (both are HMAC here)
/// or on failing to serialize the claims (a JSON object with string
/// keys cannot), and the HMAC key setup accepts secrets of any length.
/// Serialization of the claims and HMAC-SHA512 signing are
/// deterministic, so the token depends only on the secret and the
/// claims; and its payload is exactly the JSON of the claims signed,
/// which is what a successful decode parses back out.
#[verifier::external_body]
fn hs512_sign(secret: &str, session_id: u32, expires_at: usize) -> (r: Option<String>)
    ensures
        r is Some,
        r matches Some(token) ==> token@ == jwt_token_of(secret@, session_id, expires_at),
        r matches Some(token) ==> jwt_claims_of(token@) == Some((session_id, expires_at)),
{
    let key = jsonwebtoken::EncodingKey::from_secret(secret.as_bytes());
    let header = jsonwebtoken::Header::new(jsonwebtoken::Algorithm::HS512);
    let mut claims = serde_json::Map::new();
    claims.insert("sub".to_owned(), serde_json::Value::from(session_id));
    claims.insert("exp".to_owned(), serde_json::Value::from(expires_at as u64));
    jsonwebtoken::encode(&header, &serde_json::Value::Object(claims), &key).ok()
}

/// Relies on jsonwebtoken::decode with Validation::new(Algorithm::HS512):
/// it checks the HS512 signature against the secret and the standard
/// expiry claim against the clock, and on success hands back the claims
/// parsed from the token's payload, which depend on the token text
/// alone.
#[verifier::external_body]
fn hs512_verify(secret: &str, token: &str) -> (r: Option<(u32, usize)>)
    ensures
        r matches Some(claims) ==> jwt_claims_of(token@) == Some(claims),
{
    let key = jsonwebtoken::DecodingKey::from_secret(secret.as_bytes());
    let validation = jsonwebtoken::Validation::new(jsonwebtoken::Algorithm::HS512);
    let data = jsonwebtoken::decode::<serde_json::Value>(token, &key, &validation).ok()?;
    let sub = data.claims.get("sub")?.as_u64()?;
    let exp = data.claims.get("exp")?.as_u64()?;
    Some((u32::try_from(sub).ok()?, usize::try_from(exp).ok()?))
}

/// Issues and checks signed session tokens under one symmetric secret.
pub struct JWTController {
    secret: String,
}

impl JWTController {
    /// The signing secret in use.
    pub closed spec fn spec_secret(&self) -> Seq<char> {
        self.secret@
    }

    /// A codec for the configured signing parameters.
    pub fn new(jwt: &Jwt) -> (r: Self)
        ensures
            r.spec_secret() == jwt.secret@,
    {
        JWTController { secret: jwt.secret.clone() }
    }

    /// Signs the claims into a compact token. Signing always succeeds,
    /// the token is a function of the secret and the claims alone, and
    /// its payload parses back to the claims signed.
    pub fn generate_token(&self, token_claims: &TokenClaims) -> (r: Result<String, Error>)
        ensures
            ({
                &&& r matches Ok(token)
                &&& token@ == jwt_token_of(self.spec_secret(), token_claims.sub, token_claims.exp)
                &&& jwt_claims_of(token@) == Some((token_claims.sub, token_claims.exp))
            }),
    {
        match hs512_sign(self.secret.as_str(), token_claims.sub, token_claims.exp) {
            Some(token) => Ok(token),
            None => vstd::pervasive::unreached(),
        }
    }

    /// Checks a token's signature and structure and hands back its
    /// claims; a token that does not check out fails the validity
    /// check. Staleness against the stored session is not decided here.
    pub fn get_claims_from_token(&self, token: &str) -> (r: Result<TokenClaims, Error>)
        ensures
            r matches Ok(claims) ==> jwt_claims_of(token@) == Some((claims.sub, claims.exp)),
            r matches Err(e) ==> e == Error::Sessions(SessionError::ValidityCheckFail),
    {
        match hs512_verify(self.secret.as_str(), token) {
            Some((sub, exp)) => Ok(TokenClaims { sub, exp }),
            None => Err(Error::Sessions(SessionError::ValidityCheckFail)),
        }
    }
}

} // verus!
