//! Authentication session lifecycle: validated identity values, credential,
//! revocation and challenge stores, bearer tokens, and the orchestrator that
//! composes them into signup, login, second-factor, logout and token checks.

pub mod kv;
pub mod email;
pub mod password;
pub mod two_fa;
pub mod hashing;
pub mod user;
pub mod user_store;
pub mod expiry;
pub mod two_fa_code_store;
pub mod banned_token_store;
pub mod token;
pub mod error;
pub mod api;
pub mod service;
pub mod laws;
pub mod redis_banned_token_store;
pub mod redis_two_fa_code_store;
pub mod constants;
