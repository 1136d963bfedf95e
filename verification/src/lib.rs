//! A small todo-list service library.
//!
//! The library holds the verified core of an HTTP todo service: the data
//! model for todo lists and their items, the store semantics behind the
//! service's routes, the error taxonomy with its status-code mapping, and
//! the pure result-shaping steps of the data-access layer. Network and
//! database I/O live outside the library and hand it plain values.

pub mod config;
pub mod db;
pub mod errors;
pub mod models;
pub mod store;
pub mod text;
