//! One module for each intercepted function: what the interception decides
//! when the host calls it.

pub mod memory;
pub mod network;
pub mod requests;
pub mod resolver;
