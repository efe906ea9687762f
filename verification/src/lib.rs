//! Credential-issuance core: a circuit breaker, a failure classifier, a
//! TTL-bounded token-validation cache, and the register/login/session use
//! cases, with their behaviour stated in contracts and proved.

pub mod api;
pub mod auth;
pub mod breaker;
pub mod cache;
pub mod classifier;
mod clock;
pub mod config;
pub mod email;
pub mod error;
pub mod gateway;
pub mod hashing;
pub mod login_user;
pub mod parse;
pub mod register_user;
pub mod resilient;
pub mod seed;
pub mod session;
pub mod user;
