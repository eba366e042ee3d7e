//! Verified core of a small application-catalog backend: credential
//! validation, password-hash and token lifecycles, in-memory user and app
//! stores, and the upload-naming rules.

pub mod api;
pub mod apps;
pub mod dberror;
pub mod password;
pub mod statement;
pub mod text;
pub mod token;
pub mod upload;
pub mod users;
pub mod validate;
