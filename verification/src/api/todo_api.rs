//! What the HTTP adapter decides for each request: the statement to run for
//! it, or the reply that refuses it, and the reply for what the mapper read
//! from the store.

use crate::error::{message_of, Error, ErrorView};
use crate::model::todo_model::{
    create_query, delete_query, get_all_query, get_query, update_query, value_of_patch,
    value_of_record, Todo, TodoBMC, TodoPatch, TodoView,
};
use crate::repository::surrealdb_repo::{Query, QueryView};
use vstd::prelude::*;

verus! {

/// The reply to a request, before it is written out.
#[derive(Debug, PartialEq)]
pub enum HttpReply<T> {
    /// Status 200, with the value as the body.
    Json(T),
    /// Status 400, with the text as the body.
    BadRequest(&'static str),
    /// Status 500, with the text as the body.
    InternalServerError(String),
}

/// The reply for what an operation of the mapper came to: the value on
/// success, and status 500 with the failure's description otherwise.
pub fn reply<T>(result: Result<T, Error>) -> (r: HttpReply<T>)
    ensures
        match result {
            Ok(value) => r == HttpReply::Json(value),
            Err(e) => r matches HttpReply::InternalServerError(text) && text@ == message_of(e@),
        },
{
    match result {
        Ok(value) => HttpReply::Json(value),
        Err(e) => HttpReply::InternalServerError(e.message()),
    }
}

/// Whether `refusal` is what the adapter answers where `step` gives no
/// statement: status 400 for an empty id, status 500 with the description of
/// the mapper's failure otherwise.
pub open spec fn refuses<T>(
    refusal: HttpReply<T>,
    id: Seq<char>,
    step: Result<QueryView, ErrorView>,
) -> bool {
    match refusal {
        HttpReply::Json(_) => false,
        HttpReply::BadRequest(text) => id.len() == 0 && text@ == "invalid ID"@,
        HttpReply::InternalServerError(text) => id.len() > 0 && step is Err && text@ == message_of(
            step->Err_0,
        ),
    }
}

/// `POST /todos`: the statement that creates a record with the title and
/// the body of `new_todo` in the table `todo`. The new record starts without
/// an id, whatever `new_todo` holds as one: the store assigns it.
///
/// A record always maps to a mapping, so there is always a statement.
pub fn create_todo(new_todo: Todo) -> (r: Result<Query, HttpReply<Todo>>)
    ensures
        r matches Ok(query) && create_query(
            "todo"@,
            value_of_record(TodoView { id: None, title: new_todo@.title, body: new_todo@.body }),
        ) == Ok::<QueryView, ErrorView>(query@),
{
    let data = Todo { id: None, title: new_todo.title, body: new_todo.body };
    match TodoBMC::create("todo", data) {
        Ok(query) => Ok(query),
        Err(e) => Err(HttpReply::InternalServerError(e.message())),
    }
}

/// `GET /todos/{id}`: the statement that selects the record, or the reply
/// that refuses the request. An empty `id` is refused with status 400.
pub fn get_todo(id: &str) -> (r: Result<Query, HttpReply<Todo>>)
    ensures
        match r {
            Ok(query) => id@.len() > 0 && get_query(id@) == Ok::<QueryView, ErrorView>(query@),
            Err(refusal) => refuses(refusal, id@, get_query(id@)),
        },
{
    if id.is_empty() {
        return Err(HttpReply::BadRequest("invalid ID"));
    }
    match TodoBMC::get(id) {
        Ok(query) => Ok(query),
        Err(e) => Err(HttpReply::InternalServerError(e.message())),
    }
}

/// `PUT /todos/{id}`: the statement that merges the fields of `todo_patch`
/// into the record, or the reply that refuses the request. An empty `id` is
/// refused with status 400.
pub fn update_todo(id: &str, todo_patch: TodoPatch) -> (r: Result<Query, HttpReply<Todo>>)
    ensures
        match r {
            Ok(query) => id@.len() > 0 && update_query(id@, value_of_patch(todo_patch@)) == Ok::<
                QueryView,
                ErrorView,
            >(query@),
            Err(refusal) => refuses(refusal, id@, update_query(id@, value_of_patch(todo_patch@))),
        },
{
    if id.is_empty() {
        return Err(HttpReply::BadRequest("invalid ID"));
    }
    match TodoBMC::update(id, todo_patch) {
        Ok(query) => Ok(query),
        Err(e) => Err(HttpReply::InternalServerError(e.message())),
    }
}

/// `DELETE /todos/{id}`: the statement that deletes the record, or the reply
/// that refuses the request. An empty `id` is refused with status 400.
pub fn delete_todo(id: &str) -> (r: Result<Query, HttpReply<String>>)
    ensures
        match r {
            Ok(query) => id@.len() > 0 && delete_query(id@) == Ok::<QueryView, ErrorView>(query@),
            Err(refusal) => refuses(refusal, id@, delete_query(id@)),
        },
{
    if id.is_empty() {
        return Err(HttpReply::BadRequest("invalid ID"));
    }
    match TodoBMC::delete(id) {
        Ok(query) => Ok(query),
        Err(e) => Err(HttpReply::InternalServerError(e.message())),
    }
}

/// `GET /todos`: the statement that lists all records.
pub fn get_todos() -> (query: Query)
    ensures
        query@ == get_all_query(),
{
    TodoBMC::get_all()
}

} // verus!
