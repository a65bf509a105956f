//! The interface to the store: one statement with its bound parameters goes
//! out, one answer per statement comes back.

use crate::sql::value::{Fields, Object, Value, ValueView};
use vstd::prelude::*;

verus! {

/// A type whose values can be the content of a new record.
pub trait Creatable: Into<Value> {}

/// A type whose values can be merged into a stored record.
pub trait Patchable: Into<Value> {}

/// One statement for the store.
#[derive(Debug, PartialEq)]
pub struct Query {
    /// The statement's text; `$name` stands for a bound parameter.
    pub sql: &'static str,
    /// The parameters that the statement names, if it names any.
    pub vars: Option<Object>,
    /// Whether the statement only reads: `false` for every statement that
    /// may change what is stored. The store may use the hint to run a
    /// reading statement faster, and must not rely on it to be correct.
    pub readonly: bool,
}

/// The mathematical value of a [`Query`].
pub struct QueryView {
    pub sql: Seq<char>,
    pub vars: Option<Fields>,
    pub readonly: bool,
}

impl View for Query {
    type V = QueryView;

    open spec fn view(&self) -> QueryView {
        QueryView {
            sql: self.sql@,
            vars: match self.vars {
                Some(vars) => Some(vars@),
                None => None,
            },
            readonly: self.readonly,
        }
    }
}

/// The store's answer to one statement: the value it computed, or its
/// description of why it failed.
pub type QueryResult = Result<Value, String>;

/// The mathematical value of a [`QueryResult`].
pub open spec fn result_view(result: QueryResult) -> Result<ValueView, Seq<char>> {
    match result {
        Ok(value) => Ok(value@),
        Err(detail) => Err(detail@),
    }
}

/// The mathematical values of a list of answers, in order.
pub open spec fn results_view(results: Seq<QueryResult>) -> Seq<Result<ValueView, Seq<char>>> {
    Seq::new(results.len(), |i: int| result_view(results[i]))
}

} // verus!
