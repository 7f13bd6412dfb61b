//! A typed client core for a JSON-RPC 1.0 blockchain daemon: response
//! resolution, the single-retry dispatch policy, request construction,
//! configuration parsing and the error taxonomy.
pub mod text;
pub mod response;
pub mod error;
pub mod dispatch;
pub mod config;
pub mod request;
pub mod client;
pub mod blockchain;
