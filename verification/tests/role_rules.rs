use folkers_core::gateway::{authorize, authorize_owner_or_admin};
use folkers_core::roles::UserRole;

#[test]
fn roles_are_totally_ordered() {
    assert!(UserRole::Watcher < UserRole::Editor);
    assert!(UserRole::Editor < UserRole::Admin);
    assert!(UserRole::Watcher < UserRole::Admin);
    assert!(!(UserRole::Editor < UserRole::Watcher));
    assert!(!(UserRole::Admin < UserRole::Editor));
    assert!(!(UserRole::Admin < UserRole::Watcher));
    assert!(!(UserRole::Admin < UserRole::Admin));
}

#[test]
fn role_ids_increase_with_privilege() {
    assert_eq!(UserRole::Watcher.get_id(), 0);
    assert_eq!(UserRole::Editor.get_id(), 1);
    assert_eq!(UserRole::Admin.get_id(), 2);
}

#[test]
fn role_names_round_trip() {
    assert_eq!(UserRole::from_str(UserRole::Watcher.as_str()), UserRole::Watcher);
    assert_eq!(UserRole::from_str(UserRole::Editor.as_str()), UserRole::Editor);
    assert_eq!(UserRole::from_str(UserRole::Admin.as_str()), UserRole::Admin);
}

#[test]
fn role_parsing_ignores_ascii_case() {
    assert_eq!(UserRole::from_str("ADMIN"), UserRole::Admin);
    assert_eq!(UserRole::from_str("Editor"), UserRole::Editor);
    assert_eq!(UserRole::from_str("watcher"), UserRole::Watcher);
}

#[test]
fn unknown_role_strings_fail_closed() {
    assert_eq!(UserRole::from_str(""), UserRole::Watcher);
    assert_eq!(UserRole::from_str("root"), UserRole::Watcher);
    assert_eq!(UserRole::from_str("administrator"), UserRole::Watcher);
    assert_eq!(UserRole::from_str("admin "), UserRole::Watcher);
}

#[test]
fn authorization_uses_the_order() {
    assert!(authorize(UserRole::Admin, UserRole::Admin));
    assert!(authorize(UserRole::Admin, UserRole::Editor));
    assert!(authorize(UserRole::Editor, UserRole::Watcher));
    assert!(authorize(UserRole::Watcher, UserRole::Watcher));
    assert!(!authorize(UserRole::Editor, UserRole::Admin));
    assert!(!authorize(UserRole::Watcher, UserRole::Editor));
}

#[test]
fn editor_needs_authorship_for_scoped_operations() {
    assert!(!authorize_owner_or_admin(UserRole::Editor, "bob", "alice"));
    assert!(authorize_owner_or_admin(UserRole::Editor, "alice", "alice"));
    assert!(authorize_owner_or_admin(UserRole::Admin, "bob", "alice"));
    assert!(!authorize_owner_or_admin(UserRole::Watcher, "bob", "alice"));
}
