//! Supervision of a local analysis backend and a retrying request layer
//! over its HTTP endpoint.
//!
//! Every decision is made by verified code in this crate: where the backend
//! lives, when to spawn, probe, wait, kill or retry, how requests are framed
//! and responses are read. The host performs the actions it is told to
//! perform and reports what happened.
pub mod text;
pub mod retry;
pub mod settings;
pub mod paths;
pub mod endpoint;
pub mod locator;
pub mod supervisor;
pub mod http;
pub mod json;
