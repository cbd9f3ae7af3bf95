//! Authentication against a banking API whose sessions must be validated and
//! activated through an out-of-band TAN challenge before use.
//!
//! The library holds the session data model, the construction and
//! interpretation of each HTTP step, the JSON framing of what is sent, and
//! the authentication state machine. Transport, files and the wait for the
//! human signal are left to the embedding program, which performs the action
//! that the machine asks for and hands back what came of it.

pub mod json;
pub mod session_model;
pub mod loader;
pub mod session;
pub mod session_client;
pub mod utils;
pub mod session_laws;
pub mod account_client;
pub mod balance_model;
pub mod settings;
pub mod transaction;
