//! The decisions of the HTTP adapter.

pub mod todo_api;
