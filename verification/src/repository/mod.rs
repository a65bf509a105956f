//! What the mapper hands to the store and what it takes back.

pub mod surrealdb_repo;
