//! Secrets and how often they may be tried.
pub mod auth;
pub mod rate_limit;
