//! Helpers around the decision logic.

pub mod logging;
