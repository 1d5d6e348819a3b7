//! Principals: the authenticated actors of the system.

use vstd::prelude::*;

use crate::roles::UserRole;

verus! {

/// An authenticated principal as the core sees it: storage-assigned
/// identifier, unique username, opaque password hash, and role.
#[derive(Debug, Clone)]
pub struct User {
    pub id: String,
    pub username: String,
    pub password_hash: String,
    pub role: UserRole,
}

/// The fields a caller supplies to create or update a principal. The
/// password arrives in clear form here and is hashed before storage.
#[derive(Debug, Clone)]
pub struct CreateUserRecord {
    pub username: String,
    pub password: String,
    pub role: String,
    pub created_by: String,
}

} // verus!
