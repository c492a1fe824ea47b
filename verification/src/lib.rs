//! The gateway's decisions, parsers and state transitions, with their contracts.
pub mod application;
pub mod domain;
pub mod hash;
pub mod ids;
pub mod interfaces;
pub mod json;
pub mod lists;
pub mod paths;
pub mod protocol;
pub mod rpc;
pub mod security;
pub mod slug;
pub mod sorted_map;
pub mod text;
