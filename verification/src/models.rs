use vstd::prelude::*;

verus! {

/// A registration request: the plaintext password is hashed before anything
/// is stored.
#[derive(Debug, Clone)]
pub struct CreateUser {
    pub username: String,
    pub email: String,
    pub password: String,
}

/// A profile change: only the fields that are present change; a new password
/// is hashed before it is stored.
#[derive(Debug, Clone)]
pub struct UpdateUser {
    pub username: Option<String>,
    pub email: Option<String>,
    pub password: Option<String>,
    pub totp_enabled: Option<bool>,
}

/// A login request: the second-factor code is required exactly where the
/// account has the second factor enabled.
#[derive(Debug, Clone)]
pub struct LoginUser {
    pub username: String,
    pub password: String,
    pub totp_code: Option<String>,
}

/// A pair of issued tokens, as a login response carries them.
#[derive(Debug, Clone)]
pub struct TokenPair {
    pub access_token: String,
    pub refresh_token: String,
}

/// A category to create.
#[derive(Debug, Clone)]
pub struct CreateCategory {
    pub name: String,
    pub description: Option<String>,
}

/// A category change: only the fields that are present change.
#[derive(Debug, Clone)]
pub struct UpdateCategory {
    pub name: Option<String>,
    pub description: Option<String>,
}

} // verus!
