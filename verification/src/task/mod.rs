//! Cooperative tasks and what feeds them.

pub mod executor;
pub mod keyboard;
