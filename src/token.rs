use crate::banned_token_store::{banned_at, HashsetBannedTokenStore};
use crate::email::Email;
use crate::expiry::{deadline, deadline_spec};
use vstd::prelude::*;

verus! {

/// How long a bearer token stays valid, in seconds.
pub const TOKEN_TTL_SECONDS: u64 = 600;

/// The HS256 JSON Web Token that `jsonwebtoken` signs with `secret` over the
/// claims `sub` and `exp`.
pub uninterp spec fn jwt_of(sub: Seq<char>, exp: u64, secret: Seq<char>) -> Seq<char>;

/// The claims `sub` and `exp` of `token`, where its HS256 signature checks
/// out against `secret` and both claims are there; `None` otherwise.
pub uninterp spec fn jwt_claims(token: Seq<char>, secret: Seq<char>) -> Option<(Seq<char>, u64)>;

/// Relies on jsonwebtoken::encode, with the default header (HS256) and a key
/// from `EncodingKey::from_secret`: header, claims and signature joined by
/// dots, so never empty. With an HMAC key and a JSON map of claims no step of
/// it fails, and `decode` with the same secret (as `read_jwt` calls it) gives
/// the two claims back.
#[verifier::external_body]
fn sign_jwt(sub: &str, exp: u64, secret: &str) -> (r: Option<String>)
    ensures
        r is Some,
        r matches Some(t) ==> t@ == jwt_of(sub@, exp, secret@) && t@.len() > 0,
        r matches Some(t) ==> jwt_claims(t@, secret@) == Some((sub@, exp)),
{
    let mut claims = serde_json::Map::new();
    claims.insert("sub".to_string(), serde_json::Value::from(sub));
    claims.insert("exp".to_string(), serde_json::Value::from(exp));
    let key = jsonwebtoken::EncodingKey::from_secret(secret.as_bytes());
    jsonwebtoken::encode(&jsonwebtoken::Header::default(), &claims, &key).ok()
}

/// Relies on jsonwebtoken::decode with HS256, a key from
/// `DecodingKey::from_secret`, and no check of the clock or of required
/// claims: the signature is checked, then `sub` and `exp` are read.
#[verifier::external_body]
fn read_jwt(token: &str, secret: &str) -> (r: Option<(String, u64)>)
    ensures
        r is Some <==> jwt_claims(token@, secret@) is Some,
        r matches Some(c) ==> jwt_claims(token@, secret@) == Some((c.0@, c.1)),
{
    let key = jsonwebtoken::DecodingKey::from_secret(secret.as_bytes());
    let mut validation = jsonwebtoken::Validation::new(jsonwebtoken::Algorithm::HS256);
    validation.validate_exp = false;
    validation.required_spec_claims.clear();
    let data = jsonwebtoken::decode::<serde_json::Map<String, serde_json::Value>>(
        token,
        &key,
        &validation,
    ).ok()?;
    Some((data.claims.get("sub")?.as_str()?.to_string(), data.claims.get("exp")?.as_u64()?))
}

/// The claims of a bearer token: its subject and the instant it expires.
pub struct Claims {
    pub sub: String,
    pub exp: u64,
}

#[derive(Debug, Clone, Copy, PartialEq, Eq, Structural)]
pub enum TokenError {
    MalformedToken,
    Expired,
    Revoked,
}

/// What a token check concludes from the decoded claims: a bad signature
/// first, then expiry, and only then the revocation list.
pub open spec fn token_verdict(
    claims: Option<(Seq<char>, u64)>,
    banned: Map<Seq<char>, u64>,
    token: Seq<char>,
    now: u64,
) -> Result<(Seq<char>, u64), TokenError> {
    match claims {
        None => Err(TokenError::MalformedToken),
        Some(c) => if !(now < c.1) {
            Err(TokenError::Expired)
        } else if banned_at(banned, token, now) {
            Err(TokenError::Revoked)
        } else {
            Ok(c)
        },
    }
}

/// The verdict on `token` at `now`, once its claims have been decoded.
pub fn check_claims(
    claims: Option<(String, u64)>,
    token: &String,
    now: u64,
    banned: &HashsetBannedTokenStore,
) -> (r: Result<Claims, TokenError>)
    requires
        banned.wf(),
    ensures
        ({
            let c = match claims {
                Some(p) => Some((p.0@, p.1)),
                None => None,
            };
            match token_verdict(c, banned@, token@, now) {
                Ok(v) => r matches Ok(k) && k.sub@ == v.0 && k.exp == v.1,
                Err(e) => r == Err::<Claims, _>(e),
            }
        }),
{
    match claims {
        None => Err(TokenError::MalformedToken),
        Some((sub, exp)) => {
            if !(now < exp) {
                return Err(TokenError::Expired);
            }
            match banned.token_exists(token, now) {
                Ok(true) => Err(TokenError::Revoked),
                _ => Ok(Claims { sub, exp }),
            }
        },
    }
}

/// Signature, expiry, then revocation, as `token_verdict` orders them.
pub fn validate_token(
    token: &String,
    now: u64,
    secret: &String,
    banned: &HashsetBannedTokenStore,
) -> (r: Result<Claims, TokenError>)
    requires
        banned.wf(),
    ensures
        match token_verdict(jwt_claims(token@, secret@), banned@, token@, now) {
            Ok(v) => r matches Ok(k) && k.sub@ == v.0 && k.exp == v.1,
            Err(e) => r == Err::<Claims, _>(e),
        },
{
    let claims = read_jwt(token.as_str(), secret.as_str());
    check_claims(claims, token, now, banned)
}

/// A token for `email`, valid for `TOKEN_TTL_SECONDS` from `now`, whose
/// claims read back as `email` and that instant.
pub fn generate_auth_token(email: &Email, now: u64, secret: &String) -> (r: Option<String>)
    ensures
        r is Some,
        r matches Some(t) ==> jwt_claims(t@, secret@) == Some(
            (email@, deadline_spec(now, TOKEN_TTL_SECONDS)),
        ),
        r matches Some(t) ==> t@ == jwt_of(
            email@,
            deadline_spec(now, TOKEN_TTL_SECONDS),
            secret@,
        ) && t@.len() > 0,
{
    let exp = deadline(now, TOKEN_TTL_SECONDS);
    sign_jwt(email.as_ref(), exp, secret.as_str())
}

} // verus!
