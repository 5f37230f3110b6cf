//! Confidential contracts: isolated state machines whose private state changes
//! only through commands and is read only through queries, and the dispatcher
//! that routes both to the instance registered under an identity.

pub mod contracts;
pub mod dispatcher;
pub mod types;
