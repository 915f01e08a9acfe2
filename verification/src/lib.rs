//! The reply rules of a Flight SQL server that is run against foreign clients.
//!
//! The server accepts every call of the Flight SQL protocol and refuses each of them in a
//! way that its peers can check: which status code comes back, and with which text. The
//! modules below hold what the server decides; moving requests and replies over the network
//! is left to the program around them.

pub mod auth;
pub mod batch;
pub mod command;
pub mod fetch_results;
pub mod info;
pub mod laws;
pub mod metadata;
pub mod service;
pub mod status;
pub mod wire;
