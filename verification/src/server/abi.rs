//! The versioned interfaces between host and guest, and the host's side of each.

pub mod client_v1;
pub mod http_server_v1;
pub mod log_v1;
pub mod table;
