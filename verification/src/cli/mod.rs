//! The command-line tool's decisions: which event subject to read, where settings come
//! from, and how names and signals are resolved before anything is sent.
pub mod config;
pub mod events;
pub mod names;
pub mod sol;
pub mod listing;
