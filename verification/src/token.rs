//! Session tokens: stateless issuance and verification of signed claims.
//!
//! A token is an opaque bearer string signed with a symmetric secret. The
//! signing and signature checking are done by the jsonwebtoken crate and
//! are only named here; the expiry check is verified code, with the
//! current time handed in by the caller.

use vstd::prelude::*;

use crate::user::User;

verus! {

/// Default validity of a session token, in seconds: two hours.
pub const TOKEN_VALIDITY_SECS: u64 = 7200;

/// Decoded, verified payload of a session token.
#[derive(Debug, Clone)]
pub struct Claims {
    /// Identifier of the principal the token was issued to.
    pub sub: String,
    /// Username of the principal.
    pub username: String,
    /// Role of the principal, in string form.
    pub role: String,
    /// Expiration instant, seconds since the epoch.
    pub exp: u64,
}

/// Why a token failed verification. All three collapse to an unauthorized
/// outcome at the boundary but are distinguishable internally.
#[derive(Debug, Clone, Copy, PartialEq, Eq, Structural)]
pub enum TokenError {
    /// The token's structure or payload could not be decoded.
    Malformed,
    /// The token's signature does not match the secret.
    SignatureMismatch,
    /// The token was well signed but its expiry has passed.
    Expired,
}

/// The signed token that carries the given claims under the given secret.
pub uninterp spec fn token_of(
    secret: Seq<char>,
    sub: Seq<char>,
    username: Seq<char>,
    role: Seq<char>,
    exp: u64,
) -> Seq<char>;

/// The session claims carried by a token that is well signed under the
/// secret: `None` where the signature does not match, the structure is
/// malformed, or the payload lacks the expected fields.
pub uninterp spec fn token_claims(secret: Seq<char>, token: Seq<char>) -> Option<
    (Seq<char>, Seq<char>, Seq<char>, u64),
>;

/// The four session fields carried by a decoded claims object, if all are
/// present with the expected types.
pub uninterp spec fn obj_claims(m: serde_json::Map<String, serde_json::Value>) -> Option<
    (Seq<char>, Seq<char>, Seq<char>, u64),
>;

/// The token has the shape the decoder checks before it compares
/// signatures: three dot-separated segments with a decodable header
/// naming HMAC-SHA256. A function of the token alone.
pub uninterp spec fn jwt_structure_ok(token: Seq<char>) -> bool;

/// The token's payload segment decodes to a claims object carrying the
/// four session fields with their expected types. A function of the
/// token alone.
pub uninterp spec fn jwt_payload_ok(token: Seq<char>) -> bool;

#[verifier::external_type_specification]
#[verifier::external_body]
pub struct ExValue(serde_json::Value);

#[verifier::external_type_specification]
#[verifier::external_body]
#[verifier::reject_recursive_types(K)]
#[verifier::reject_recursive_types(V)]
pub struct ExMap<K, V>(serde_json::Map<K, V>);

/// Relies on jsonwebtoken's `encode` with HS256 and a symmetric secret:
/// it signs a JSON object holding exactly the four claims, and `decode`
/// under the same secret recovers them. It always succeeds here: the
/// header's algorithm family matches the key, and serializing a
/// string-keyed map and HMAC signing are total.
#[verifier::external_body]
fn jwt_encode(secret: &str, sub: &str, username: &str, role: &str, exp: u64) -> (r: Option<
    String,
>)
    ensures
        r is Some,
        r matches Some(t) ==> t@ == token_of(secret@, sub@, username@, role@, exp),
        r matches Some(t) ==> token_claims(secret@, t@) == Some((sub@, username@, role@, exp)),
        r matches Some(t) ==> jwt_structure_ok(t@) && jwt_payload_ok(t@),
{
    let mut m = serde_json::Map::new();
    m.insert("sub".to_string(), serde_json::Value::from(sub));
    m.insert("username".to_string(), serde_json::Value::from(username));
    m.insert("role".to_string(), serde_json::Value::from(role));
    m.insert("exp".to_string(), serde_json::Value::from(exp));
    let key = jsonwebtoken::EncodingKey::from_secret(secret.as_bytes());
    jsonwebtoken::encode(&jsonwebtoken::Header::default(), &m, &key).ok()
}

/// Relies on jsonwebtoken's `decode` with HS256: it checks the token's
/// signature against the secret and returns the decoded claims object.
/// Expiry validation is switched off here and done by verified code.
#[verifier::external_body]
fn jwt_decode_obj(secret: &str, token: &str) -> (r: Result<
    serde_json::Map<String, serde_json::Value>,
    TokenError,
>)
    ensures
        r matches Ok(m) ==> obj_claims(m) == token_claims(secret@, token@),
        r matches Ok(m) ==> (jwt_payload_ok(token@) <==> obj_claims(m) is Some),
        r is Err ==> token_claims(secret@, token@) is None,
        r matches Err(e) ==> (e == TokenError::Malformed || e == TokenError::SignatureMismatch),
        r matches Err(e) ==> (!jwt_structure_ok(token@) ==> e == TokenError::Malformed),
        r matches Err(e) ==> (jwt_structure_ok(token@) && jwt_payload_ok(token@) ==> e
            == TokenError::SignatureMismatch),
{
    let mut validation = jsonwebtoken::Validation::new(jsonwebtoken::Algorithm::HS256);
    validation.validate_exp = false;
    validation.validate_aud = false;
    validation.required_spec_claims = std::collections::HashSet::new();
    let key = jsonwebtoken::DecodingKey::from_secret(secret.as_bytes());
    match jsonwebtoken::decode::<serde_json::Map<String, serde_json::Value>>(token, &key, &validation) {
        Ok(data) => Ok(data.claims),
        Err(e) => match e.kind() {
            jsonwebtoken::errors::ErrorKind::InvalidSignature => Err(TokenError::SignatureMismatch),
            _ => Err(TokenError::Malformed),
        },
    }
}

/// Relies on serde_json's `Map::get` and the `Value` accessors: picks the
/// four session fields out of a decoded claims object.
#[verifier::external_body]
fn claims_from_obj(m: &serde_json::Map<String, serde_json::Value>) -> (r: Option<
    (String, String, String, u64),
>)
    ensures
        match r {
            Some(c) => obj_claims(*m) == Some((c.0@, c.1@, c.2@, c.3)),
            None => obj_claims(*m) is None,
        },
{
    match (
        m.get("sub").and_then(|v| v.as_str()),
        m.get("username").and_then(|v| v.as_str()),
        m.get("role").and_then(|v| v.as_str()),
        m.get("exp").and_then(|v| v.as_u64()),
    ) {
        (Some(s), Some(u), Some(ro), Some(e)) => Some(
            (s.to_string(), u.to_string(), ro.to_string(), e),
        ),
        _ => None,
    }
}

/// What verification of a token must yield at time `now`, as far as the
/// token's claims determine it: the claims while unexpired, `Expired` once
/// `exp` has passed, and `None` for a token that carries no claims (bad
/// signature or malformed), whose exact error the decoder reports.
pub open spec fn spec_token_verdict(secret: Seq<char>, token: Seq<char>, now: u64) -> Option<
    Result<(Seq<char>, Seq<char>, Seq<char>, u64), TokenError>,
> {
    match token_claims(secret, token) {
        Some(c) => Some(
            if c.3 <= now {
                Err(TokenError::Expired)
            } else {
                Ok(c)
            },
        ),
        None => None,
    }
}

/// Issues and verifies session tokens under one symmetric secret with a
/// fixed validity window. Issuance is stateless: no session table exists,
/// and a token is revoked only by its expiry.
#[derive(Clone)]
pub struct TokenService {
    pub secret: String,
    pub validity_secs: u64,
}

impl TokenService {
    /// A service signing with `secret`, with the default validity window.
    pub fn new(secret: String) -> (r: TokenService)
        ensures
            r.secret@ == secret@,
            r.validity_secs == TOKEN_VALIDITY_SECS,
    {
        TokenService { secret, validity_secs: TOKEN_VALIDITY_SECS }
    }

    /// Issue a token for a principal: its claims are the principal's
    /// identifier, username, and role name, expiring `validity_secs` from
    /// `now`, strictly in the future. Issuance always succeeds.
    pub fn issue_token(&self, user: &User, now: u64) -> (r: String)
        requires
            now + self.validity_secs <= u64::MAX,
        ensures
            token_claims(self.secret@, r@) == Some(
                (
                    user.id@,
                    user.username@,
                    user.role.spec_name(),
                    (now + self.validity_secs) as u64,
                ),
            ),
            r@ == token_of(
                self.secret@,
                user.id@,
                user.username@,
                user.role.spec_name(),
                (now + self.validity_secs) as u64,
            ),
    {
        let exp = now + self.validity_secs;
        jwt_encode(
            self.secret.as_str(),
            user.id.as_str(),
            user.username.as_str(),
            user.role.as_str(),
            exp,
        ).unwrap()
    }

    /// Verify a token at time `now`: signature check and expiry check in
    /// one step. Returns the claims exactly as issued, or the reason the
    /// token is rejected.
    pub fn verify_token(&self, token: &str, now: u64) -> (r: Result<Claims, TokenError>)
        ensures
            match spec_token_verdict(self.secret@, token@, now) {
                Some(Ok(c)) => r matches Ok(cl) && cl.sub@ == c.0 && cl.username@ == c.1
                    && cl.role@ == c.2 && cl.exp == c.3,
                Some(Err(e)) => r matches Err(e2) && e2 == e,
                None => r matches Err(e) && (e == TokenError::Malformed || e
                    == TokenError::SignatureMismatch) && (!jwt_structure_ok(token@) ==> e
                    == TokenError::Malformed) && (jwt_structure_ok(token@) && jwt_payload_ok(
                    token@,
                ) ==> e == TokenError::SignatureMismatch),
            },
    {
        match jwt_decode_obj(self.secret.as_str(), token) {
            Err(e) => Err(e),
            Ok(obj) => match claims_from_obj(&obj) {
                None => Err(TokenError::Malformed),
                Some(c) => {
                    if c.3 <= now {
                        Err(TokenError::Expired)
                    } else {
                        Ok(Claims { sub: c.0, username: c.1, role: c.2, exp: c.3 })
                    }
                },
            },
        }
    }
}

/// A token issued for a principal and checked before its expiry verifies
/// back to exactly the identifier, username, and role it was issued with.
pub proof fn lemma_issued_token_verifies(
    secret: Seq<char>,
    token: Seq<char>,
    sub: Seq<char>,
    username: Seq<char>,
    role: Seq<char>,
    exp: u64,
    now: u64,
)
    requires
        token_claims(secret, token) == Some((sub, username, role, exp)),
        now < exp,
    ensures
        spec_token_verdict(secret, token, now) == Some(
            Ok::<_, TokenError>((sub, username, role, exp)),
        ),
{
}

/// A token issued for a principal and verified before its expiry
/// recovers the principal exactly: identifier, username, and, through
/// role parsing, the role itself.
pub proof fn lemma_issued_token_recovers_principal(
    secret: Seq<char>,
    token: Seq<char>,
    sub: Seq<char>,
    username: Seq<char>,
    role: crate::roles::UserRole,
    exp: u64,
    now: u64,
)
    requires
        token_claims(secret, token) == Some((sub, username, role.spec_name(), exp)),
        now < exp,
    ensures
        spec_token_verdict(secret, token, now) == Some(
            Ok::<_, TokenError>((sub, username, role.spec_name(), exp)),
        ),
        crate::roles::UserRole::spec_from(role.spec_name()) == role,
{
    crate::roles::lemma_role_name_round_trip(role);
}

/// Once `exp` has passed, verification fails with `Expired`, even though
/// the token still carries well-signed claims.
pub proof fn lemma_expired_token_rejected(
    secret: Seq<char>,
    token: Seq<char>,
    sub: Seq<char>,
    username: Seq<char>,
    role: Seq<char>,
    exp: u64,
    now: u64,
)
    requires
        token_claims(secret, token) == Some((sub, username, role, exp)),
        exp <= now,
    ensures
        spec_token_verdict(secret, token, now) == Some(
            Err::<(Seq<char>, Seq<char>, Seq<char>, u64), TokenError>(TokenError::Expired),
        ),
{
}

} // verus!
