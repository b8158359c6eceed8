//! The guest's side: what a program inside the sandbox links against.

pub mod bindgen;
pub mod bug;
pub mod client;
pub mod http_server;
pub mod log;
pub mod web;
