//! Authentication and secret-protection core of a password-manager backend:
//! password hashing and verification, time-based one-time passwords,
//! signed session tokens, and reversible protection of stored credential
//! secrets, with the bearer-token boundary that request handlers consume.

mod ambient;
pub mod boundary;
pub mod crypto;
pub mod errors;
pub mod hashing;
pub mod ids;
pub mod models;
mod strutil;
pub mod token;
pub mod totp;

pub use boundary::{AuthUser, authenticate, authenticate_at, check_login};
pub use crypto::{decrypt_password, encrypt_password};
pub use errors::AuthError;
pub use hashing::{derive_key, hash_password, verify_password};
pub use ids::UserId;
pub use models::{CreateCategory, CreateUser, LoginUser, TokenPair, UpdateCategory, UpdateUser};
pub use token::{Claims, TokenConfig, create_token, create_token_at, validate_token,
    validate_token_at};
pub use totp::{TotpEnrollment, generate_totp, generate_totp_secret, totp_code_at, verify_totp,
    verify_totp_at};
