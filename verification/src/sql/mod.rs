//! The store's value system, as far as the mapper reads it.

pub mod thing;
pub mod value;
