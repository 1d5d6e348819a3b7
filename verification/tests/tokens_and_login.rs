use folkers_core::auth::{login, LoginError, LoginRequest, UserRepository};
use folkers_core::gateway::{admit_request, strip_bearer, GateError};
use folkers_core::roles::UserRole;
use folkers_core::token::{TokenError, TokenService, TOKEN_VALIDITY_SECS};
use folkers_core::user::User;

// An unpadded base64 salt, sixteen bytes once decoded.
const SALT: &str = "c29tZXNhbHRzb21lc2FsdA";

fn sample_user() -> User {
    User {
        id: String::from("usr_7"),
        username: String::from("alice"),
        password_hash: String::new(),
        role: UserRole::Editor,
    }
}

#[test]
fn issued_token_verifies_to_same_claims() {
    let service = TokenService::new(String::from("topsecret"));
    let user = sample_user();
    let token = service.issue_token(&user, 1_000);
    let claims = service.verify_token(&token, 1_500).expect("verification");
    assert_eq!(claims.sub, "usr_7");
    assert_eq!(claims.username, "alice");
    assert_eq!(claims.role, "editor");
    assert_eq!(claims.exp, 1_000 + TOKEN_VALIDITY_SECS);
}

#[test]
fn expired_token_is_rejected_as_expired() {
    let service = TokenService::new(String::from("topsecret"));
    let user = sample_user();
    let token = service.issue_token(&user, 1_000);
    let exp = 1_000 + TOKEN_VALIDITY_SECS;
    assert_eq!(service.verify_token(&token, exp).unwrap_err(), TokenError::Expired);
    assert_eq!(service.verify_token(&token, exp + 50_000).unwrap_err(), TokenError::Expired);
    assert!(service.verify_token(&token, exp - 1).is_ok());
}

#[test]
fn tampered_or_foreign_tokens_fail_signature_check() {
    let service = TokenService::new(String::from("topsecret"));
    let other = TokenService::new(String::from("othersecret"));
    let user = sample_user();
    let token = service.issue_token(&user, 1_000);
    assert_eq!(other.verify_token(&token, 1_500).unwrap_err(), TokenError::SignatureMismatch);
    let mut tampered = token.clone();
    tampered.pop();
    tampered.push('A');
    let verdict = service.verify_token(&tampered, 1_500).unwrap_err();
    assert!(verdict == TokenError::SignatureMismatch || verdict == TokenError::Malformed);
}

#[test]
fn garbage_tokens_are_malformed() {
    let service = TokenService::new(String::from("topsecret"));
    assert_eq!(service.verify_token("not-a-token", 1_500).unwrap_err(), TokenError::Malformed);
    assert_eq!(service.verify_token("", 1_500).unwrap_err(), TokenError::Malformed);
}

#[test]
fn bearer_scheme_is_stripped() {
    assert_eq!(strip_bearer("Bearer abc.def.ghi").as_deref(), Some("abc.def.ghi"));
    assert_eq!(strip_bearer("Basic abc"), None);
    assert_eq!(strip_bearer("bearer abc"), None);
    assert_eq!(strip_bearer(""), None);
}

#[test]
fn gateway_admits_by_role() {
    let service = TokenService::new(String::from("topsecret"));
    let user = sample_user();
    let token = service.issue_token(&user, 1_000);
    let header = format!("Bearer {token}");

    let admitted = admit_request(&service, Some(&header), 1_500, UserRole::Watcher)
        .expect("editor clears the watcher bar");
    assert_eq!(admitted.id, "usr_7");
    assert_eq!(admitted.username, "alice");
    assert_eq!(admitted.role, UserRole::Editor);

    assert_eq!(
        admit_request(&service, Some(&header), 1_500, UserRole::Admin).unwrap_err(),
        GateError::Forbidden
    );
    assert_eq!(
        admit_request(&service, None, 1_500, UserRole::Watcher).unwrap_err(),
        GateError::MissingToken
    );
    let bad_scheme = String::from("Token abc");
    assert_eq!(
        admit_request(&service, Some(&bad_scheme), 1_500, UserRole::Watcher).unwrap_err(),
        GateError::MissingToken
    );
    let exp = 1_000 + TOKEN_VALIDITY_SECS;
    assert_eq!(
        admit_request(&service, Some(&header), exp, UserRole::Watcher).unwrap_err(),
        GateError::Unauthorized
    );
}

#[test]
fn password_hash_verifies_only_the_same_password() {
    let repo = UserRepository::new(String::from(SALT)).expect("valid salt");
    let hash = repo.hash_password("hunter2").expect("hashing");
    assert!(repo.verify_password("hunter2", &hash));
    assert!(!repo.verify_password("hunter3", &hash));
    assert!(!repo.verify_password("", &hash));
}

#[test]
fn malformed_stored_hash_verifies_false() {
    let repo = UserRepository::new(String::from(SALT)).expect("valid salt");
    assert!(!repo.verify_password("hunter2", "not-a-phc-hash"));
    assert!(!repo.verify_password("hunter2", ""));
}

#[test]
fn argon_rejects_a_salt_below_its_minimum() {
    // Four base64 characters pass salt parsing but decode to fewer bytes
    // than the hash function accepts, so hashing itself reports failure.
    let repo = UserRepository::new(String::from("AAAA")).expect("parsable salt");
    assert!(repo.hash_password("hunter2").is_err());
}

#[test]
fn invalid_salt_refuses_construction() {
    assert!(UserRepository::new(String::from("!!bad salt!!")).is_err());
    assert!(UserRepository::new(String::new()).is_err());
}

#[test]
fn patch_keeps_hash_only_for_empty_password() {
    let repo = UserRepository::new(String::from(SALT)).expect("valid salt");
    let old_hash = repo.hash_password("firstpass").expect("hashing");
    let kept = folkers_core::auth::patched_password_hash(&repo, &old_hash, "").expect("kept");
    assert_eq!(kept, old_hash);
    let renewed =
        folkers_core::auth::patched_password_hash(&repo, &old_hash, "fresh").expect("rehash");
    assert!(repo.verify_password("fresh", &renewed));
    assert!(!repo.verify_password("firstpass", &renewed));
}

#[test]
fn login_refuses_unknown_users_and_bad_passwords() {
    let repo = UserRepository::new(String::from(SALT)).expect("valid salt");
    let service = TokenService::new(String::from("topsecret"));
    let request = LoginRequest {
        username: String::from("nobody"),
        password: String::from("whatever"),
    };
    assert_eq!(
        login(&repo, &service, None, &request, 1_000).unwrap_err(),
        LoginError::UnknownUser
    );
    let mut user = sample_user();
    user.password_hash = repo.hash_password("hunter2").expect("hashing");
    let request = LoginRequest {
        username: String::from("alice"),
        password: String::from("wrong"),
    };
    assert_eq!(
        login(&repo, &service, Some(&user), &request, 1_000).unwrap_err(),
        LoginError::BadCredentials
    );
}

#[test]
fn login_hands_out_a_working_bearer_token() {
    let repo = UserRepository::new(String::from(SALT)).expect("valid salt");
    let service = TokenService::new(String::from("topsecret"));
    let mut user = sample_user();
    user.password_hash = repo.hash_password("hunter2").expect("hashing");
    let request = LoginRequest {
        username: String::from("alice"),
        password: String::from("hunter2"),
    };
    let response = login(&repo, &service, Some(&user), &request, 1_000).expect("login");
    assert_eq!(response.token_type, "Bearer");
    let claims = service.verify_token(&response.token, 1_500).expect("verification");
    assert_eq!(claims.sub, "usr_7");
    assert_eq!(claims.username, "alice");
    assert_eq!(claims.role, "editor");
}

#[test]
fn prepared_user_records_carry_hashed_passwords() {
    let repo = UserRepository::new(String::from(SALT)).expect("valid salt");
    let record = folkers_core::user::CreateUserRecord {
        username: String::from("bob"),
        password: String::from("plaintext"),
        role: String::from("editor"),
        created_by: String::from("sneaky-claimed-creator"),
    };
    let prepared =
        folkers_core::auth::prepare_user_record(&repo, "admin1", record).expect("prepare");
    assert_eq!(prepared.username, "bob");
    assert_eq!(prepared.role, "editor");
    assert_eq!(prepared.created_by, "admin1");
    assert_ne!(prepared.password, "plaintext");
    assert!(repo.verify_password("plaintext", &prepared.password));
}
