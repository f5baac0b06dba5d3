//! The state, protocol and view logic of a desktop client for Codex.
pub mod codec;
pub mod json;
pub mod laws;
pub mod model;
pub mod reducer;
pub mod runtime;
pub mod text;
pub mod ui;
