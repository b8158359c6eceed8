//! Host-side runtime for WebAssembly request handlers that talk to an EdgeDB
//! database, together with the guest-side helpers that share its ABI.
//!
//! `server` holds the host: routing, the module cache, the worker registry,
//! the resource tables and the bridges of the three versioned interfaces.
//! `sdk` holds what a guest links against, and `macros` the naming rules of
//! the exports that a guest registers.

pub mod data;
pub mod dict;
pub mod macros;
pub mod text;
pub mod sdk;
pub mod server;

