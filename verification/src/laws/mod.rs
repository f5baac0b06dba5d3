//! What holds of the library as a whole.
pub mod actions;
pub mod events;
pub mod meaning;
pub mod protocol;
pub mod screen;
pub mod script;
pub mod timeline;
pub mod views;
pub mod window;
pub mod words;
