//! Typed to-do records on top of a schema-less document store.
//!
//! The crate maps [`Todo`](model::todo_model::Todo) records to the generic
//! [`Value`](sql::value::Value)s that the store understands, builds the
//! statement that each operation sends, and reads the store's answers back
//! into records. Running a statement is left to the caller: every operation
//! of [`TodoBMC`](model::todo_model::TodoBMC) comes as a pair, one function
//! that prepares the [`Query`](repository::surrealdb_repo::Query) and one
//! that reads the answers.
//!
//! - [`sql`] holds the store's values and record identifiers.
//! - [`model`] holds the records, their conversions and the mapper.
//! - [`repository`] holds what goes to the store and what comes back.
//! - [`api`] holds the decisions of the HTTP adapter.
//! - [`error`] holds the failures that all of them report.

pub mod api;
pub mod error;
pub mod model;
pub mod repository;
pub mod sql;
