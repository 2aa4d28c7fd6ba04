//! Decisions of the main HTTP endpoint.
pub mod preview;
pub mod content;
