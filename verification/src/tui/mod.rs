//! The terminal interface's state and the text it draws.
pub mod app;
pub mod ui;
