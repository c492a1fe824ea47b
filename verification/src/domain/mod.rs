//! The gateway's records and errors.
pub mod error;
pub mod models;
