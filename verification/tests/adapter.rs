use todo_mapper::api::todo_api::{
    create_todo, delete_todo, get_todo, get_todos, reply, update_todo, HttpReply,
};
use todo_mapper::error::Error;
use todo_mapper::model::todo_model::{Todo, TodoBMC, TodoPatch};
use todo_mapper::sql::value::Value;

#[test]
fn create_todo_starts_without_an_id() {
    let sent =
        Todo { id: Some("todo:sent".to_string()), title: "t".to_string(), body: "b".to_string() };
    let query = create_todo(sent).unwrap();
    let fresh = Todo { id: None, title: "t".to_string(), body: "b".to_string() };
    assert_eq!(query, TodoBMC::create("todo", fresh).unwrap());
    let vars = query.vars.unwrap();
    assert_eq!(vars.get("tb"), Some(&Value::Strand("todo".to_string())));
    match vars.get("data") {
        Some(Value::Object(content)) => assert_eq!(content.get("id"), None),
        other => panic!("no content: {:?}", other),
    }
}

#[test]
fn get_todo_refuses_an_empty_id() {
    assert_eq!(get_todo(""), Err(HttpReply::BadRequest("invalid ID")));
}

#[test]
fn get_todo_builds_the_statement_of_get() {
    assert_eq!(get_todo("abc123"), Ok(TodoBMC::get("abc123").unwrap()));
}

#[test]
fn get_todo_reports_a_parse_failure_as_a_server_error() {
    assert_eq!(
        get_todo("[1]"),
        Err(HttpReply::InternalServerError("Invalid record identifier 'todo:[1]'".to_string()))
    );
}

#[test]
fn update_todo_refuses_an_empty_id() {
    let patch = TodoPatch { title: Some("t".to_string()), body: None };
    assert_eq!(update_todo("", patch), Err(HttpReply::BadRequest("invalid ID")));
}

#[test]
fn update_todo_builds_the_statement_of_update() {
    let patch = TodoPatch { title: Some("t".to_string()), body: None };
    let same = TodoPatch { title: Some("t".to_string()), body: None };
    assert_eq!(update_todo("abc123", patch), Ok(TodoBMC::update("abc123", same).unwrap()));
}

#[test]
fn update_todo_reports_a_parse_failure_as_a_server_error() {
    let patch = TodoPatch { title: None, body: None };
    assert_eq!(
        update_todo("{", patch),
        Err(HttpReply::InternalServerError("Invalid record identifier 'todo:{'".to_string()))
    );
}

#[test]
fn delete_todo_refuses_an_empty_id() {
    assert_eq!(delete_todo(""), Err(HttpReply::BadRequest("invalid ID")));
}

#[test]
fn delete_todo_builds_the_statement_of_delete() {
    assert_eq!(delete_todo("abc123"), Ok(TodoBMC::delete("abc123").unwrap()));
}

#[test]
fn get_todos_builds_the_statement_of_get_all() {
    assert_eq!(get_todos(), TodoBMC::get_all());
}

#[test]
fn reply_hands_a_value_on() {
    let todo = Todo { id: None, title: "t".to_string(), body: "b".to_string() };
    assert_eq!(
        reply(Ok(todo)),
        HttpReply::Json(Todo { id: None, title: "t".to_string(), body: "b".to_string() })
    );
    assert_eq!(reply(Ok("todo:abc".to_string())), HttpReply::Json("todo:abc".to_string()));
}

#[test]
fn reply_describes_a_failure() {
    let failed: Result<Todo, Error> = Err(Error::TypeMismatch("Object"));
    assert_eq!(
        reply(failed),
        HttpReply::InternalServerError("Value not of type 'Object'".to_string())
    );
    let failed: Result<Vec<Todo>, Error> = Err(Error::StoreError("broken".to_string()));
    assert_eq!(reply(failed), HttpReply::InternalServerError("broken".to_string()));
}
