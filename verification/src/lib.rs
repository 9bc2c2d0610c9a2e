//! Focus Fox: a pomodoro timer. This crate holds the timer state machine,
//! the configuration rules, the statistics fold over the session history and
//! the key-driven application state, each with its contract.
//!
//! Every duration in the library is a count of nanoseconds held in a `u128`,
//! which represents any `std::time::Duration` exactly.

pub mod cli;
pub mod config;
pub mod stats;
pub mod text;
pub mod timer;
pub mod tui;
