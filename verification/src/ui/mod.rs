//! What the window does and shows.
pub mod approvals;
pub mod root;
pub mod state;
pub mod view;
