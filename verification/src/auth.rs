//! Password credentials: one-way hashing and verification, and the login
//! decision built on them.
//!
//! Hashing is Argon2 with a server-wide salt configured once at startup.
//! The hash and the verification verdict are functions of password and
//! salt alone; both are named here and computed by the argon2 crate.

use vstd::prelude::*;

use crate::token::{token_claims, TokenService};
use crate::user::{CreateUserRecord, User};

verus! {

/// The string is a well-formed PHC salt.
pub uninterp spec fn salt_ok(salt: Seq<char>) -> bool;

/// The PHC hash string Argon2 with default parameters produces for a
/// password under a salt; `None` where Argon2 rejects the inputs (a salt
/// outside its accepted length, or an overlong password).
pub uninterp spec fn phc_hash_of(salt: Seq<char>, password: Seq<char>) -> Option<Seq<char>>;

/// Does Argon2 verification accept the password against this stored PHC
/// hash string?
pub uninterp spec fn phc_verifies(password: Seq<char>, hash: Seq<char>) -> bool;

/// Relies on `SaltString::from_b64`: whether the string is a well-formed
/// PHC salt.
#[verifier::external_body]
fn salt_is_valid(salt: &str) -> (r: bool)
    ensures
        r == salt_ok(salt@),
{
    argon2::password_hash::SaltString::from_b64(salt).is_ok()
}

/// Relies on argon2's `hash_password`: the PHC string it produces is a
/// function of password and salt alone, and by construction carries the
/// salt and parameters with which verification recomputes the same hash,
/// so verifying the same password against it succeeds.
#[verifier::external_body]
fn argon2_hash(salt: &str, password: &str) -> (r: Option<String>)
    requires
        salt_ok(salt@),
    ensures
        match r {
            Some(h) => phc_hash_of(salt@, password@) == Some(h@) && phc_verifies(password@, h@),
            None => phc_hash_of(salt@, password@) is None,
        },
{
    let s = argon2::password_hash::SaltString::from_b64(salt).unwrap();
    match argon2::password_hash::PasswordHasher::hash_password(
        &argon2::Argon2::default(),
        password.as_bytes(),
        &s,
    ) {
        Ok(h) => Some(h.to_string()),
        Err(_) => None,
    }
}

/// Relies on PHC `PasswordHash::parse` (B64 encoding) and argon2's
/// `verify_password`: recomputes the hash with the salt and parameters
/// stored in the hash string and compares outputs; a malformed stored
/// hash verifies as false rather than erroring.
#[verifier::external_body]
fn argon2_verify(password: &str, hash: &str) -> (r: bool)
    ensures
        r == phc_verifies(password@, hash@),
{
    match argon2::password_hash::PasswordHash::parse(
        hash,
        argon2::password_hash::Encoding::B64,
    ) {
        Ok(parsed) => argon2::password_hash::PasswordVerifier::verify_password(
            &argon2::Argon2::default(),
            password.as_bytes(),
            &parsed,
        ).is_ok(),
        Err(_) => false,
    }
}

/// Why a credential operation failed.
#[derive(Debug, Clone, Copy, PartialEq, Eq, Structural)]
pub enum CredentialError {
    /// The configured salt is not a well-formed PHC salt; the service
    /// must refuse to start.
    InvalidSalt,
    /// Argon2 rejected the hashing inputs.
    HashingFailed,
}

/// Login request payload: a username and a clear password.
#[derive(Debug, Clone)]
pub struct LoginRequest {
    pub username: String,
    pub password: String,
}

/// Successful login response: the bearer token and its scheme.
#[derive(Debug, Clone)]
pub struct AuthResponse {
    pub token: String,
    pub token_type: String,
}

/// Why a login was refused.
#[derive(Debug, Clone, Copy, PartialEq, Eq, Structural)]
pub enum LoginError {
    /// No principal with the requested username exists.
    UnknownUser,
    /// The password does not verify against the stored hash.
    BadCredentials,
}

/// Hashes and checks password credentials under one server-wide salt.
#[derive(Clone)]
pub struct UserRepository {
    pub salt: String,
}

impl UserRepository {
    /// The salt was accepted at construction.
    pub open spec fn wf(self) -> bool {
        salt_ok(self.salt@)
    }

    /// A repository using the given base64 salt. A malformed salt refuses
    /// construction: hashing misconfiguration is fatal at startup, never
    /// discovered at request time.
    pub fn new(salt: String) -> (r: Result<UserRepository, CredentialError>)
        ensures
            match r {
                Ok(repo) => salt_ok(salt@) && repo.salt@ == salt@,
                Err(e) => !salt_ok(salt@) && e == CredentialError::InvalidSalt,
            },
    {
        if salt_is_valid(salt.as_str()) {
            Ok(UserRepository { salt })
        } else {
            Err(CredentialError::InvalidSalt)
        }
    }

    /// Hash a clear password to its PHC string. The result verifies
    /// against the same password; an error reports exactly that Argon2
    /// rejected the inputs.
    pub fn hash_password(&self, password: &str) -> (r: Result<String, CredentialError>)
        requires
            self.wf(),
        ensures
            match r {
                Ok(h) => phc_hash_of(self.salt@, password@) == Some(h@) && phc_verifies(
                    password@,
                    h@,
                ),
                Err(e) => phc_hash_of(self.salt@, password@) is None && e
                    == CredentialError::HashingFailed,
            },
    {
        match argon2_hash(self.salt.as_str(), password) {
            Some(h) => Ok(h),
            None => Err(CredentialError::HashingFailed),
        }
    }

    /// Check a clear password against a stored hash. Malformed stored
    /// hashes verify as false rather than propagating a parse failure.
    pub fn verify_password(&self, password: &str, stored_hash: &str) -> (r: bool)
        ensures
            r == phc_verifies(password@, stored_hash@),
    {
        argon2_verify(password, stored_hash)
    }
}

/// The password field of a principal patch: an empty password keeps the
/// stored hash unchanged, a non-empty one is hashed anew.
pub fn patched_password_hash(
    repo: &UserRepository,
    existing_hash: &String,
    new_password: &str,
) -> (r: Result<String, CredentialError>)
    requires
        repo.wf(),
    ensures
        new_password@.len() == 0 ==> (r matches Ok(h) && h@ == existing_hash@),
        new_password@.len() != 0 ==> match r {
            Ok(h) => phc_hash_of(repo.salt@, new_password@) == Some(h@) && phc_verifies(
                new_password@,
                h@,
            ),
            Err(e) => phc_hash_of(repo.salt@, new_password@) is None && e
                == CredentialError::HashingFailed,
        },
{
    if new_password.unicode_len() == 0 {
        Ok(existing_hash.clone())
    } else {
        repo.hash_password(new_password)
    }
}

/// The login decision: an unknown user is refused as such, a known user's
/// password must verify against the stored hash, and a verified principal
/// is always handed a fresh bearer token carrying exactly its identity.
/// The caller resolves `request.username` to `user` in its store.
pub fn login(
    repo: &UserRepository,
    tokens: &TokenService,
    user: Option<&User>,
    request: &LoginRequest,
    now: u64,
) -> (r: Result<AuthResponse, LoginError>)
    requires
        now + tokens.validity_secs <= u64::MAX,
    ensures
        user is None ==> r == Err::<AuthResponse, LoginError>(LoginError::UnknownUser),
        user matches Some(u) ==> (!phc_verifies(request.password@, u.password_hash@) ==> r
            == Err::<AuthResponse, LoginError>(LoginError::BadCredentials)),
        user matches Some(u) ==> (phc_verifies(request.password@, u.password_hash@) ==> (r
            matches Ok(resp) && resp.token_type@ == "Bearer"@ && token_claims(
            tokens.secret@,
            resp.token@,
        ) == Some(
            (u.id@, u.username@, u.role.spec_name(), (now + tokens.validity_secs) as u64),
        ))),
{
    match user {
        None => Err(LoginError::UnknownUser),
        Some(u) => {
            if !repo.verify_password(request.password.as_str(), u.password_hash.as_str()) {
                Err(LoginError::BadCredentials)
            } else {
                let token = tokens.issue_token(u, now);
                Ok(AuthResponse { token, token_type: String::from_str("Bearer") })
            }
        },
    }
}

/// Prepare a caller-supplied principal record for storage: the clear
/// password is replaced by its hash, and the creator field is set to the
/// acting administrator, whatever the caller wrote there.
pub fn prepare_user_record(
    repo: &UserRepository,
    created_by: &str,
    record: CreateUserRecord,
) -> (r: Result<CreateUserRecord, CredentialError>)
    requires
        repo.wf(),
    ensures
        match r {
            Ok(out) => out.username@ == record.username@ && out.role@ == record.role@
                && out.created_by@ == created_by@ && phc_hash_of(repo.salt@, record.password@)
                == Some(out.password@) && phc_verifies(record.password@, out.password@),
            Err(e) => phc_hash_of(repo.salt@, record.password@) is None && e
                == CredentialError::HashingFailed,
        },
{
    let password = repo.hash_password(record.password.as_str())?;
    Ok(
        CreateUserRecord {
            username: record.username,
            password,
            role: record.role,
            created_by: String::from_str(created_by),
        },
    )
}

} // verus!
