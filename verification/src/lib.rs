//! Identity and integrity core of a role-gated record store.
//!
//! The crate covers session-token issuance and verification, hierarchical
//! role authorization, password-credential hashing, a content-addressed
//! object store, and asymmetric signing of canonically serialized records.
//! Storage backends and HTTP routing are external collaborators: they hand
//! plain values in and take plain values back.

pub mod auth;
pub mod digest;
pub mod encode;
pub mod gateway;
pub mod records;
pub mod roles;
pub mod signing;
pub mod store;
pub mod strutil;
pub mod token;
pub mod user;

pub use roles::UserRole;
