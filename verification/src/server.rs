//! The host: everything that runs outside the guest's sandbox.

pub mod abi;
pub mod bug;
pub mod hyper;
pub mod module;
pub mod options;
pub mod tenant;
pub mod unix_sock;
pub mod worker;
