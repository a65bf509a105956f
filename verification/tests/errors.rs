use todo_mapper::error::Error;

#[test]
fn type_mismatch_names_the_shape() {
    assert_eq!(Error::TypeMismatch("Object").message(), "Value not of type 'Object'");
    assert_eq!(Error::TypeMismatch("Array").message(), "Value not of type 'Array'");
}

#[test]
fn property_not_found_names_the_field() {
    assert_eq!(
        Error::PropertyNotFound("title".to_string()).message(),
        "Property 'title' not found"
    );
}

#[test]
fn identifier_parse_error_quotes_the_text() {
    assert_eq!(
        Error::IdentifierParseError("todo:".to_string()).message(),
        "Invalid record identifier 'todo:'"
    );
}

#[test]
fn store_error_speaks_in_the_words_of_the_store() {
    assert_eq!(
        Error::StoreError("The table does not exist".to_string()).message(),
        "The table does not exist"
    );
}

#[test]
fn broken_invariant_has_a_fixed_text() {
    assert_eq!(Error::InternalInvariantViolation.message(), "Did not get a response");
}
