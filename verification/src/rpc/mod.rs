//! Requests of clients: who may make them and who answers them.
pub mod dispatcher;
pub mod methods;
pub mod policy;

use vstd::prelude::*;

verus! {

/// The client behind a connection.
#[derive(Debug)]
pub struct SessionContext {
    pub conn_id: String,
    pub role: String,
    pub scopes: Vec<String>,
    pub client_id: String,
    pub client_mode: String,
}

} // verus!
