//! Request admission: the per-request walk from unauthenticated to
//! authenticated to admitted.
//!
//! A request carries a bearer token; the gateway verifies it, derives the
//! acting principal, and compares its role with the operation's minimum.
//! Author-scoped operations additionally admit the record's own author.
//! The gateway holds no cross-request state.

use vstd::prelude::*;

use crate::roles::UserRole;
use crate::strutil::{spec_has_prefix, str_eq, str_has_prefix};
use crate::token::{spec_token_verdict, TokenService};

verus! {

/// The authenticated actor of one request, as recovered from its token.
#[derive(Debug, Clone)]
pub struct AuthUser {
    pub id: String,
    pub username: String,
    pub role: UserRole,
}

/// Why a request was turned away.
#[derive(Debug, Clone, Copy, PartialEq, Eq, Structural)]
pub enum GateError {
    /// No authorization header, or not a bearer scheme.
    MissingToken,
    /// The token failed verification: missing claims, bad signature, or
    /// expired.
    Unauthorized,
    /// The token is valid but the role or ownership is insufficient.
    Forbidden,
}

/// The token carried by an authorization header value, if the value uses
/// the bearer scheme.
pub open spec fn spec_bearer_token(header: Seq<char>) -> Option<Seq<char>> {
    if spec_has_prefix(header, "Bearer "@) {
        Some(header.subrange("Bearer "@.len() as int, header.len() as int))
    } else {
        None
    }
}

/// Extract the token from an authorization header value.
pub fn strip_bearer(header: &str) -> (r: Option<String>)
    ensures
        match r {
            Some(t) => spec_bearer_token(header@) == Some(t@),
            None => spec_bearer_token(header@) is None,
        },
{
    proof {
        reveal_strlit("Bearer ");
    }
    if str_has_prefix(header, "Bearer ") {
        let n = header.unicode_len();
        let tail = header.substring_char(7, n);
        Some(String::from_str(tail))
    } else {
        None
    }
}

/// A role is admitted against a required minimum exactly when it ranks at
/// least as high; checks use the order, never equality.
pub fn authorize(role: UserRole, min_role: UserRole) -> (r: bool)
    ensures
        r == (role.spec_id() >= min_role.spec_id()),
{
    role.get_id() >= min_role.get_id()
}

/// Author-scoped admission: an admin may always act, anyone else only on
/// a record they authored.
pub fn authorize_owner_or_admin(role: UserRole, username: &str, record_author: &str) -> (r:
    bool)
    ensures
        r == (role.spec_id() >= UserRole::Admin.spec_id() || username@ == record_author@),
{
    if authorize(role, UserRole::Admin) {
        true
    } else {
        str_eq(username, record_author)
    }
}

/// Admit one request against an operation's minimum role: extract the
/// bearer token, verify it at time `now`, derive the acting principal,
/// and compare roles. Rejections are terminal; no work happens past them.
pub fn admit_request(
    tokens: &TokenService,
    auth_header: Option<&String>,
    now: u64,
    min_role: UserRole,
) -> (r: Result<AuthUser, GateError>)
    ensures
        match auth_header {
            None => r == Err::<AuthUser, GateError>(GateError::MissingToken),
            Some(h) => match spec_bearer_token(h@) {
                None => r == Err::<AuthUser, GateError>(GateError::MissingToken),
                Some(t) => match spec_token_verdict(tokens.secret@, t, now) {
                    Some(Ok(c)) => if UserRole::spec_from(c.2).spec_id() >= min_role.spec_id() {
                        r matches Ok(au) && au.id@ == c.0 && au.username@ == c.1 && au.role
                            == UserRole::spec_from(c.2)
                    } else {
                        r == Err::<AuthUser, GateError>(GateError::Forbidden)
                    },
                    _ => r == Err::<AuthUser, GateError>(GateError::Unauthorized),
                },
            },
        },
{
    let header = match auth_header {
        None => {
            return Err(GateError::MissingToken);
        },
        Some(h) => h,
    };
    let token = match strip_bearer(header.as_str()) {
        None => {
            return Err(GateError::MissingToken);
        },
        Some(t) => t,
    };
    let claims = match tokens.verify_token(token.as_str(), now) {
        Err(_) => {
            return Err(GateError::Unauthorized);
        },
        Ok(c) => c,
    };
    let role = UserRole::from_str(claims.role.as_str());
    if authorize(role, min_role) {
        Ok(AuthUser { id: claims.sub, username: claims.username, role })
    } else {
        Err(GateError::Forbidden)
    }
}

/// An editor is denied an admin-only operation, and an editor who did not
/// author a record is denied an author-scoped operation on it.
pub proof fn lemma_editor_denied(username: Seq<char>, author: Seq<char>)
    ensures
        !(UserRole::Editor.spec_id() >= UserRole::Admin.spec_id()),
        username != author ==> !(UserRole::Editor.spec_id() >= UserRole::Admin.spec_id()
            || username == author),
{
}

} // verus!
