//! The records of the service and the operations on them.

pub mod laws;
pub mod todo_model;
