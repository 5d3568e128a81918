//! A streaming relay over HTTP: one sender pushes a request body to a path and
//! one receiver fetching the same path gets it, byte for byte.
//!
//! The library holds the decisions of the relay: request routing and
//! validation, the per-path rendezvous slot, the headers handed from sender to
//! receiver, and the pages the server renders itself.

mod text;
pub mod headers;
pub mod query;
pub mod pipe;
pub mod reserved_paths;
pub mod piping_server;
pub mod transfer;
pub mod tls;
pub mod dynamic_resources;
