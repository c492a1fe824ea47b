//! What can go wrong in the gateway.
use crate::text::cat;
use vstd::prelude::*;

verus! {

/// What can go wrong in the gateway.
pub enum DomainError {
    InvalidRequest(String),
    NotFound(String),
    NotPaired(String),
    Unauthorized(String),
    Unavailable(String),
    Storage(String),
}

impl DomainError {
    /// The error in words.
    pub open spec fn words(&self) -> Seq<char> {
        match self {
            DomainError::InvalidRequest(m) => "invalid request: "@ + m@,
            DomainError::NotFound(m) => "not found: "@ + m@,
            DomainError::NotPaired(m) => "not paired: "@ + m@,
            DomainError::Unauthorized(m) => "unauthorized: "@ + m@,
            DomainError::Unavailable(m) => "unavailable: "@ + m@,
            DomainError::Storage(m) => "storage error: "@ + m@,
        }
    }

    /// The error in words.
    pub fn describe(&self) -> (r: String)
        ensures
            r@ == self.words(),
    {
        match self {
            DomainError::InvalidRequest(m) => cat("invalid request: ", m.as_str()),
            DomainError::NotFound(m) => cat("not found: ", m.as_str()),
            DomainError::NotPaired(m) => cat("not paired: ", m.as_str()),
            DomainError::Unauthorized(m) => cat("unauthorized: ", m.as_str()),
            DomainError::Unavailable(m) => cat("unavailable: ", m.as_str()),
            DomainError::Storage(m) => cat("storage error: ", m.as_str()),
        }
    }
}

} // verus!
