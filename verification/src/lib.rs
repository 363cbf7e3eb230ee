//! Request planning and reply decisions for a small HTTP service that fronts
//! a Bitcoin Core node over JSON-RPC.
//!
//! The service itself (HTTP server, HTTP client, JSON encoding) lives outside
//! this crate; this crate decides, for each endpoint, which JSON-RPC calls are
//! made with which parameters and what the HTTP client of the service is
//! answered for every outcome of those calls.

pub mod text;

pub mod models;
pub mod rpc;
pub mod reply;
pub mod auth;
pub mod env_config;
pub mod node;
pub mod wallet;
pub mod mining;
pub mod transfer;
