//! Decision logic of a request filter that sits between a host application
//! and the name-resolution and request-creation functions it calls.
//!
//! The crate decides; it performs no I/O. A caller hands it the bytes it read
//! from the host's structures and carries out the actions it gets back.

pub mod config;
pub mod extract;
pub mod hooks;
pub mod text;
pub mod utils;
