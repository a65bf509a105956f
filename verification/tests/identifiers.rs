use todo_mapper::error::Error;
use todo_mapper::sql::thing::{thing, Thing};

fn todo(id: &str) -> Thing {
    Thing { tb: "todo".to_string(), id: surrealdb::sql::Id::from(id) }
}

#[test]
fn parses_table_and_local_id() {
    assert_eq!(thing("todo:abc123"), Ok(todo("abc123")));
}

#[test]
fn parsed_identifier_differs_from_its_text() {
    let parsed = thing("todo:abc123").unwrap();
    assert_eq!(parsed.tb, "todo");
    assert_ne!(parsed.tb, "todo:abc123");
    assert_eq!(parsed.id, surrealdb::sql::Id::String("abc123".to_string()));
}

#[test]
fn parses_a_numeric_local_id_as_a_number() {
    assert_eq!(
        thing("todo:42"),
        Ok(Thing { tb: "todo".to_string(), id: surrealdb::sql::Id::Number(42) })
    );
}

#[test]
fn parses_another_table() {
    assert_eq!(
        thing("person:tobie"),
        Ok(Thing { tb: "person".to_string(), id: surrealdb::sql::Id::from("tobie") })
    );
}

#[test]
fn empty_local_id_fails() {
    assert_eq!(thing("todo:"), Err(Error::IdentifierParseError("todo:".to_string())));
}

#[test]
fn table_without_an_id_fails_whatever_the_table() {
    assert_eq!(thing("person:"), Err(Error::IdentifierParseError("person:".to_string())));
    assert_eq!(thing(":"), Err(Error::IdentifierParseError(":".to_string())));
    assert_eq!(thing("⟨a b⟩:"), Err(Error::IdentifierParseError("⟨a b⟩:".to_string())));
    assert_eq!(thing("'todo:"), Err(Error::IdentifierParseError("'todo:".to_string())));
}

#[test]
fn text_that_ends_at_a_second_separator_is_read() {
    assert_eq!(
        thing("todo:abc:"),
        Ok(Thing { tb: "todo".to_string(), id: surrealdb::sql::Id::from("abc") })
    );
}

#[test]
fn empty_text_fails() {
    assert_eq!(thing(""), Err(Error::IdentifierParseError("".to_string())));
}

#[test]
fn text_without_separator_fails() {
    assert_eq!(thing("todo"), Err(Error::IdentifierParseError("todo".to_string())));
}

#[test]
fn leading_blank_fails() {
    assert_eq!(thing(" todo:abc"), Err(Error::IdentifierParseError(" todo:abc".to_string())));
}

#[test]
fn list_id_is_refused() {
    assert_eq!(thing("todo:[1,2]"), Err(Error::IdentifierParseError("todo:[1,2]".to_string())));
}

#[test]
fn mapping_id_is_refused() {
    assert_eq!(thing("todo:{a:1}"), Err(Error::IdentifierParseError("todo:{a:1}".to_string())));
}

#[test]
fn deeply_nested_id_is_refused_at_once() {
    let text = format!("todo:{}", "[".repeat(100000));
    assert_eq!(thing(&text), Err(Error::IdentifierParseError(text.clone())));
    let text = format!("todo:{}", "{a:".repeat(100000));
    assert_eq!(thing(&text), Err(Error::IdentifierParseError(text.clone())));
}

#[test]
fn opener_anywhere_in_the_text_is_refused() {
    assert_eq!(thing("todo:abc["), Err(Error::IdentifierParseError("todo:abc[".to_string())));
    assert_eq!(thing("to{do:abc"), Err(Error::IdentifierParseError("to{do:abc".to_string())));
}

#[test]
fn bracketed_local_id_keeps_its_blanks() {
    assert_eq!(thing("todo:⟨a b⟩"), Ok(todo("a b")));
}

#[test]
fn long_plain_id_is_read() {
    let id = "a".repeat(10000);
    assert_eq!(thing(&format!("todo:{}", id)), Ok(todo(&id)));
}
