//! To-do records, their mapping to generic values and back, and the
//! statements of the five operations on them.

use crate::error::{outcome, Error, ErrorView};
use crate::repository::surrealdb_repo::{
    results_view, Creatable, Patchable, Query, QueryResult, QueryView,
};
use crate::sql::thing::{thing, thing_of};
use crate::sql::value::{
    array_of, first_of, object_of, text_of, value_to_array, value_to_object, value_to_string,
    values_view, Fields, Object, Value, ValueView,
};
use vstd::prelude::*;

verus! {

/// A to-do record. `id` is `None` until the store has saved the record.
#[derive(Debug, PartialEq)]
pub struct Todo {
    pub id: Option<String>,
    pub title: String,
    pub body: String,
}

/// A partial update of a to-do record: `None` leaves the field as it is.
#[derive(Debug, PartialEq)]
pub struct TodoPatch {
    pub title: Option<String>,
    pub body: Option<String>,
}

/// The mathematical value of a [`Todo`].
pub struct TodoView {
    pub id: Option<Seq<char>>,
    pub title: Seq<char>,
    pub body: Seq<char>,
}

/// The mathematical value of a [`TodoPatch`].
pub struct TodoPatchView {
    pub title: Option<Seq<char>>,
    pub body: Option<Seq<char>>,
}

/// The characters of an optional string.
pub open spec fn text_view(text: Option<String>) -> Option<Seq<char>> {
    match text {
        Some(t) => Some(t@),
        None => None,
    }
}

impl View for Todo {
    type V = TodoView;

    open spec fn view(&self) -> TodoView {
        TodoView { id: text_view(self.id), title: self.title@, body: self.body@ }
    }
}

impl View for TodoPatch {
    type V = TodoPatchView;

    open spec fn view(&self) -> TodoPatchView {
        TodoPatchView { title: text_view(self.title), body: text_view(self.body) }
    }
}

/// The fields that stand for `record`: `title` and `body` always, `id` only
/// where the record has one.
pub open spec fn fields_of_record(record: TodoView) -> Fields {
    let fields = map![
        "title"@ => ValueView::Strand(record.title),
        "body"@ => ValueView::Strand(record.body),
    ];
    match record.id {
        Some(id) => fields.insert("id"@, ValueView::Strand(id)),
        None => fields,
    }
}

/// The fields that stand for `patch`: one for each field that is present,
/// and no other.
pub open spec fn fields_of_patch(patch: TodoPatchView) -> Fields {
    let fields = match patch.title {
        Some(title) => map!["title"@ => ValueView::Strand(title)],
        None => Map::<Seq<char>, ValueView>::empty(),
    };
    match patch.body {
        Some(body) => fields.insert("body"@, ValueView::Strand(body)),
        None => fields,
    }
}

/// The generic value that stands for `record`: the mapping of its fields.
pub open spec fn value_of_record(record: TodoView) -> ValueView {
    ValueView::Object(fields_of_record(record))
}

/// The generic value that stands for `patch`: the mapping of the fields that
/// are present.
pub open spec fn value_of_patch(patch: TodoPatchView) -> ValueView {
    ValueView::Object(fields_of_patch(patch))
}

/// The text of the field `name`, where `fields` has that field: `None`
/// where it is absent, a mismatch where it is no text.
pub open spec fn optional_text(fields: Fields, name: Seq<char>) -> Result<
    Option<Seq<char>>,
    ErrorView,
> {
    if fields.contains_key(name) {
        match text_of(fields[name]) {
            Ok(text) => Ok(Some(text)),
            Err(e) => Err(e),
        }
    } else {
        Ok(None)
    }
}

/// The text of the field `name`, which `fields` must have: `PropertyNotFound`
/// where it is absent, a mismatch where it is no text.
pub open spec fn required_text(fields: Fields, name: Seq<char>) -> Result<Seq<char>, ErrorView> {
    match optional_text(fields, name) {
        Ok(Some(text)) => Ok(text),
        Ok(None) => Err(ErrorView::PropertyNotFound(name)),
        Err(e) => Err(e),
    }
}

/// Whether `fields` hold an `id` that is a record identifier, as the
/// documents that the store returns do.
pub open spec fn has_identifier(fields: Fields) -> bool {
    fields.contains_key("id"@) && fields["id"@] is Thing
}

/// Whether `document` is a mapping whose `id` is a record identifier.
pub open spec fn names_its_record(document: ValueView) -> bool {
    document is Object && has_identifier(document->Object_0)
}

/// The record that `fields` stand for: `title` and `body` are required,
/// `id` is optional, other fields are ignored. Where more than one of the
/// three fails, the failure of `title` comes before that of `body`, and that
/// of `body` before that of `id`.
pub open spec fn record_of(fields: Fields) -> Result<TodoView, ErrorView> {
    match (
        required_text(fields, "title"@),
        required_text(fields, "body"@),
        optional_text(fields, "id"@),
    ) {
        (Ok(title), Ok(body), Ok(id)) => Ok(TodoView { id, title, body }),
        (Err(e), _, _) => Err(e),
        (_, Err(e), _) => Err(e),
        (_, _, Err(e)) => Err(e),
    }
}

/// The names of the three fields of a record differ from each other.
pub proof fn lemma_field_names_differ()
    ensures
        "id"@ != "title"@,
        "id"@ != "body"@,
        "title"@ != "body"@,
{
    reveal_strlit("id");
    reveal_strlit("title");
    reveal_strlit("body");
    assert("id"@.len() == 2);
    assert("title"@.len() == 5);
    assert("body"@.len() == 4);
}

/// Maps a record to the generic value that the store takes: a mapping with
/// the fields `title` and `body`, and with `id` exactly where the record has
/// one.
pub fn record_to_value(record: Todo) -> (value: Value)
    ensures
        value@ == value_of_record(record@),
{
    proof {
        lemma_field_names_differ();
    }
    let object = Object::new();
    let object = match record.id {
        Some(id) => object.insert("id".to_owned(), Value::Strand(id)),
        None => object,
    };
    let object = object.insert("title".to_owned(), Value::Strand(record.title));
    let object = object.insert("body".to_owned(), Value::Strand(record.body));
    assert(object@ =~= fields_of_record(record@));
    Value::Object(object)
}

/// Maps a patch to the generic value that the store merges: a mapping that
/// holds a field exactly where the patch holds one. A field that is absent
/// is left out, not set to `Null`.
pub fn patch_to_value(patch: TodoPatch) -> (value: Value)
    ensures
        value@ == value_of_patch(patch@),
{
    let object = Object::new();
    let object = match patch.title {
        Some(title) => object.insert("title".to_owned(), Value::Strand(title)),
        None => object,
    };
    let object = match patch.body {
        Some(body) => object.insert("body".to_owned(), Value::Strand(body)),
        None => object,
    };
    assert(object@ =~= fields_of_patch(patch@));
    Value::Object(object)
}

impl From<Todo> for Value {
    /// The same as [`record_to_value`].
    fn from(val: Todo) -> (value: Value)
        ensures
            value@ == value_of_record(val@),
    {
        record_to_value(val)
    }
}

/// What `from` returns is stated on `from` itself, over views. The
/// specification that the standard trait offers would have to name the
/// returned value itself, strings and vectors included, so it is switched
/// off.
impl vstd::std_specs::convert::FromSpecImpl<Todo> for Value {
    open spec fn obeys_from_spec() -> bool {
        false
    }

    open spec fn from_spec(val: Todo) -> Value {
        arbitrary()
    }
}

impl From<TodoPatch> for Value {
    /// The same as [`patch_to_value`].
    fn from(val: TodoPatch) -> (value: Value)
        ensures
            value@ == value_of_patch(val@),
    {
        patch_to_value(val)
    }
}

/// As for [`Todo`]: what `from` returns is stated on `from` itself.
impl vstd::std_specs::convert::FromSpecImpl<TodoPatch> for Value {
    open spec fn obeys_from_spec() -> bool {
        false
    }

    open spec fn from_spec(val: TodoPatch) -> Value {
        arbitrary()
    }
}

impl Creatable for Todo {}

impl Patchable for TodoPatch {}

/// Takes the field `name` out of `object` and narrows it to text.
fn take_text(object: Object, name: &str) -> (r: (Object, Result<Option<String>, Error>))
    ensures
        r.0@ == object@.remove(name@),
        match r.1 {
            Ok(text) => optional_text(object@, name@) == Ok::<Option<Seq<char>>, ErrorView>(
                text_view(text),
            ),
            Err(e) => optional_text(object@, name@) == Err::<Option<Seq<char>>, ErrorView>(e@),
        },
        object@.contains_key(name@) && object@[name@] is Thing ==> (r.1 matches Ok(Some(text))
            && text@.len() > 0),
{
    let (rest, taken) = object.remove(name);
    let text = match taken {
        Some(value) => match value_to_string(value) {
            Ok(text) => Ok(Some(text)),
            Err(e) => Err(e),
        },
        None => Ok(None),
    };
    (rest, text)
}

/// Reads a record from the fields of a stored document.
///
/// Fails with `PropertyNotFound` where `title` or `body` is missing, and
/// with `TypeMismatch("String")` where `title`, `body` or `id` is no text;
/// [`record_of`] says which failure comes first. An `id` that is a record
/// identifier is read as the text in which the store writes it, which is
/// never empty.
pub fn object_to_record(object: Object) -> (r: Result<Todo, Error>)
    ensures
        outcome(r) == record_of(object@),
        has_identifier(object@) ==> (r matches Ok(record) ==> (record.id matches Some(id)
            && id@.len() > 0)),
{
    proof {
        lemma_field_names_differ();
    }
    let (object, title) = take_text(object, "title");
    let title = match title {
        Ok(Some(text)) => text,
        Ok(None) => {
            return Err(Error::PropertyNotFound("title".to_owned()));
        },
        Err(e) => {
            return Err(e);
        },
    };
    let (object, body) = take_text(object, "body");
    let body = match body {
        Ok(Some(text)) => text,
        Ok(None) => {
            return Err(Error::PropertyNotFound("body".to_owned()));
        },
        Err(e) => {
            return Err(e);
        },
    };
    let (_, id) = take_text(object, "id");
    match id {
        Ok(id) => Ok(Todo { id, title, body }),
        Err(e) => Err(e),
    }
}

/// The record that a stored document stands for: the document must be a
/// mapping, and its fields must form a record.
pub open spec fn record_of_value(value: ValueView) -> Result<TodoView, ErrorView> {
    match object_of(value) {
        Ok(fields) => record_of(fields),
        Err(e) => Err(e),
    }
}

/// The records that the first `n` of `values` stand for, or the failure of
/// the first among them that stands for none.
pub open spec fn records_upto(values: Seq<ValueView>, n: int) -> Result<Seq<TodoView>, ErrorView>
    decreases n,
{
    if n <= 0 {
        Ok(Seq::empty())
    } else {
        match records_upto(values, n - 1) {
            Ok(records) => match record_of_value(values[n - 1]) {
                Ok(record) => Ok(records.push(record)),
                Err(e) => Err(e),
            },
            Err(e) => Err(e),
        }
    }
}

/// The records that `values` stand for, in order; where one of them stands
/// for no record, the failure of the first such value.
pub open spec fn records_of(values: Seq<ValueView>) -> Result<Seq<TodoView>, ErrorView> {
    records_upto(values, values.len() as int)
}

/// The text of the identifier of the record `id` in the table `tb`: the two,
/// joined by one `:`. Neither is escaped.
pub open spec fn identifier_text(tb: Seq<char>, id: Seq<char>) -> Seq<char> {
    tb + ":"@ + id
}

/// The identifier text of the to-do record with the local id `tid`.
pub open spec fn thing_text(tid: Seq<char>) -> Seq<char> {
    identifier_text("todo"@, tid)
}

/// The statement that lists all to-do records.
pub open spec fn get_all_query() -> QueryView {
    QueryView { sql: "SELECT * FROM todo;"@, vars: None, readonly: true }
}

/// The statement that creates a record in the table `tb` from the fields of
/// `content` other than `id`, or a mismatch where `content` is no mapping.
pub open spec fn create_query(tb: Seq<char>, content: ValueView) -> Result<QueryView, ErrorView> {
    match object_of(content) {
        Ok(fields) => Ok(
            QueryView {
                sql: "CREATE type::table($tb) CONTENT $data RETURN *"@,
                vars: Some(
                    map![
                        "tb"@ => ValueView::Strand(tb),
                        "data"@ => ValueView::Object(fields.remove("id"@)),
                    ],
                ),
                readonly: false,
            },
        ),
        Err(e) => Err(e),
    }
}

/// The statement that selects the to-do record with the local id `tid`, or
/// a parse failure where `todo:` and `tid` do not make an identifier.
pub open spec fn get_query(tid: Seq<char>) -> Result<QueryView, ErrorView> {
    match thing_of(thing_text(tid)) {
        Some(th) => Ok(
            QueryView {
                sql: "SELECT * FROM $th"@,
                vars: Some(map!["th"@ => ValueView::Thing(th)]),
                readonly: true,
            },
        ),
        None => Err(ErrorView::IdentifierParseError(thing_text(tid))),
    }
}

/// The statement that merges `content` into the to-do record with the local
/// id `tid`, or a parse failure where `todo:` and `tid` do not make an
/// identifier.
pub open spec fn update_query(tid: Seq<char>, content: ValueView) -> Result<QueryView, ErrorView> {
    match thing_of(thing_text(tid)) {
        Some(th) => Ok(
            QueryView {
                sql: "UPDATE $th MERGE $data RETURN *"@,
                vars: Some(map!["th"@ => ValueView::Thing(th), "data"@ => content]),
                readonly: false,
            },
        ),
        None => Err(ErrorView::IdentifierParseError(thing_text(tid))),
    }
}

/// The statement that deletes the to-do record with the local id `tid`, or
/// a parse failure where `todo:` and `tid` do not make an identifier.
pub open spec fn delete_query(tid: Seq<char>) -> Result<QueryView, ErrorView> {
    match thing_of(thing_text(tid)) {
        Some(th) => Ok(
            QueryView {
                sql: "DELETE $th RETURN *"@,
                vars: Some(map!["th"@ => ValueView::Thing(th)]),
                readonly: false,
            },
        ),
        None => Err(ErrorView::IdentifierParseError(thing_text(tid))),
    }
}

/// The value of the first answer: the store's failure where that answer is
/// one, and a broken invariant where there is no answer at all.
pub open spec fn first_result(results: Seq<Result<ValueView, Seq<char>>>) -> Result<
    ValueView,
    ErrorView,
> {
    if results.len() == 0 {
        Err(ErrorView::InternalInvariantViolation)
    } else {
        match results[0] {
            Ok(value) => Ok(value),
            Err(detail) => Err(ErrorView::StoreError(detail)),
        }
    }
}

/// The document that a get or update statement returned, where the first
/// answer holds a value: the first element of that value.
pub open spec fn record_document(results: Seq<Result<ValueView, Seq<char>>>) -> ValueView {
    first_of(first_result(results)->Ok_0)
}

/// The document that a create statement returned, where the first answer
/// holds a value: the value itself where it is no list, and its first
/// element where it is one.
pub open spec fn created_document(results: Seq<Result<ValueView, Seq<char>>>) -> ValueView {
    let value = first_result(results)->Ok_0;
    if value is Array {
        first_of(value)
    } else {
        value
    }
}

/// The record that the answers to a get or update statement hold: the first
/// element of the first answer, read as a record.
pub open spec fn record_result(results: Seq<Result<ValueView, Seq<char>>>) -> Result<
    TodoView,
    ErrorView,
> {
    match first_result(results) {
        Ok(_) => record_of_value(record_document(results)),
        Err(e) => Err(e),
    }
}

/// The record that the answers to a create statement hold: the first answer
/// itself where it is no list, and its first element where it is one.
pub open spec fn created_result(results: Seq<Result<ValueView, Seq<char>>>) -> Result<
    TodoView,
    ErrorView,
> {
    match first_result(results) {
        Ok(_) => record_of_value(created_document(results)),
        Err(e) => Err(e),
    }
}

/// The documents that the listing statement returned, where the first answer
/// holds a list: the elements of that list.
pub open spec fn listed_documents(results: Seq<Result<ValueView, Seq<char>>>) -> Seq<ValueView> {
    array_of(first_result(results)->Ok_0)->Ok_0
}

/// The records that the answers to the listing statement hold: every
/// element of the first answer, read as a record.
pub open spec fn records_result(results: Seq<Result<ValueView, Seq<char>>>) -> Result<
    Seq<TodoView>,
    ErrorView,
> {
    match first_result(results) {
        Ok(value) => match array_of(value) {
            Ok(items) => records_of(items),
            Err(e) => Err(e),
        },
        Err(e) => Err(e),
    }
}

/// What the answers to the delete statement for `tid` confirm: the
/// identifier text, whatever value the first answer holds.
pub open spec fn deleted_result(
    tid: Seq<char>,
    results: Seq<Result<ValueView, Seq<char>>>,
) -> Result<Seq<char>, ErrorView> {
    match first_result(results) {
        Ok(_) => Ok(thing_text(tid)),
        Err(e) => Err(e),
    }
}

/// The mathematical values of a list of records, in order.
pub open spec fn todos_view(todos: Seq<Todo>) -> Seq<TodoView> {
    Seq::new(todos.len(), |i: int| todos[i]@)
}

/// Once a value among the first `n` stands for no record, so it stays
/// however many more values are read.
pub proof fn lemma_records_upto_fails(values: Seq<ValueView>, n: int, m: int)
    requires
        0 <= n <= m,
        records_upto(values, n) is Err,
    ensures
        records_upto(values, m) == records_upto(values, n),
    decreases m - n,
{
    if n < m {
        lemma_records_upto_fails(values, n, m - 1);
    }
}

/// The first answer of the store, taken out of `results`.
fn take_first(results: Vec<QueryResult>) -> (r: Result<Value, Error>)
    ensures
        outcome(r) == first_result(results_view(results@)),
{
    let mut results = results;
    if results.len() == 0 {
        return Err(Error::InternalInvariantViolation);
    }
    match results.swap_remove(0) {
        Ok(value) => Ok(value),
        Err(detail) => Err(Error::StoreError(detail)),
    }
}

/// The identifier of the to-do record with the local id `tid`, as text.
fn todo_thing_text(tid: &str) -> (text: String)
    ensures
        text@ == thing_text(tid@),
{
    let text = "todo:".to_owned().concat(tid);
    proof {
        reveal_strlit("todo:");
        reveal_strlit("todo");
        reveal_strlit(":");
        assert("todo:"@ =~= "todo"@ + ":"@);
        assert(text@ =~= thing_text(tid@));
    }
    text
}

/// The mapper of to-do records. Each operation is a pair of functions: one
/// builds the statement to run (`get_all`, `create`, `get`, `update`,
/// `delete`), the other reads the store's answers to it (`records`,
/// `created`, `record` for get and update, `deleted`).
pub struct TodoBMC;

impl TodoBMC {
    /// The statement that lists all to-do records.
    pub fn get_all() -> (query: Query)
        ensures
            query@ == get_all_query(),
    {
        Query { sql: "SELECT * FROM todo;", vars: None, readonly: true }
    }

    /// Reads the records that the store lists.
    ///
    /// The first answer must be a list, and each of its elements a mapping
    /// that forms a record: the first element that does not ends the listing
    /// with its failure, and no record is returned. An empty list gives no
    /// records and no failure. Where a document names its record, as those
    /// of the store do, the record that is read from it has an id, and the
    /// id is not empty.
    pub fn records(results: Vec<QueryResult>) -> (r: Result<Vec<Todo>, Error>)
        ensures
            match r {
                Ok(todos) => records_result(results_view(results@)) == Ok::<
                    Seq<TodoView>,
                    ErrorView,
                >(todos_view(todos@)),
                Err(e) => records_result(results_view(results@)) == Err::<
                    Seq<TodoView>,
                    ErrorView,
                >(e@),
            },
            r matches Ok(todos) ==> forall|i: int|
                0 <= i < todos@.len() && names_its_record(
                    #[trigger] listed_documents(results_view(results@))[i],
                ) ==> (todos@[i].id matches Some(id) && id@.len() > 0),
    {
        let ghost answers = results_view(results@);
        let first = match take_first(results) {
            Ok(value) => value,
            Err(e) => {
                return Err(e);
            },
        };
        let items = match value_to_array(first) {
            Ok(items) => items,
            Err(e) => {
                return Err(e);
            },
        };
        let ghost all = values_view(items@);
        let mut todos: Vec<Todo> = Vec::new();
        assert(todos_view(todos@) =~= Seq::<TodoView>::empty());
        for value in it: items
            invariant
                all == values_view(it.seq()),
                answers == results_view(results@),
                records_result(answers) == records_of(all),
                records_upto(all, it.index() as int) == Ok::<Seq<TodoView>, ErrorView>(
                    todos_view(todos@),
                ),
                todos@.len() == it.index(),
                forall|i: int|
                    0 <= i < todos@.len() && names_its_record(#[trigger] all[i]) ==> (
                    todos@[i].id matches Some(id) && id@.len() > 0),
        {
            let ghost n = it.index() as int;
            let ghost done = todos_view(todos@);
            assert(all[n] == value@);
            let object = match value_to_object(value) {
                Ok(object) => object,
                Err(e) => {
                    proof {
                        lemma_records_upto_fails(all, n + 1, all.len() as int);
                    }
                    return Err(e);
                },
            };
            let todo = match object_to_record(object) {
                Ok(todo) => todo,
                Err(e) => {
                    proof {
                        lemma_records_upto_fails(all, n + 1, all.len() as int);
                    }
                    return Err(e);
                },
            };
            todos.push(todo);
            assert(todos_view(todos@) =~= done.push(todo@));
        }
        Ok(todos)
    }

    /// The statement that creates a record from `data` in the table `tb`.
    ///
    /// `data` is converted to a generic value, and the statement is the one
    /// that [`TodoBMC::create_content`] builds from that value, whatever the
    /// conversion gives: a value that is no mapping is refused. For a
    /// [`Todo`] the value is the one of [`record_to_value`].
    pub fn create<T: Creatable>(tb: &str, data: T) -> (r: Result<Query, Error>)
        ensures
            exists|content: Value| #[trigger]
                call_ensures(<T as Into<Value>>::into, (data,), content) && outcome(r)
                    == create_query(tb@, content@),
    {
        let content: Value = data.into();
        Self::create_content(tb, content)
    }

    /// The statement that creates a record with `content` in the table `tb`.
    ///
    /// Fails with `TypeMismatch("Object")` where `content` is no mapping.
    /// A new record gets its id from the store: where `content` holds a
    /// field `id`, the field is left out of what is bound; the other fields
    /// are bound as they are.
    pub fn create_content(tb: &str, content: Value) -> (r: Result<Query, Error>)
        ensures
            outcome(r) == create_query(tb@, content@),
    {
        let data = match value_to_object(content) {
            Ok(object) => object.remove("id").0,
            Err(e) => {
                return Err(e);
            },
        };
        let vars = Object::new().insert("tb".to_owned(), Value::Strand(tb.to_owned())).insert(
            "data".to_owned(),
            Value::Object(data),
        );
        Ok(
            Query {
                sql: "CREATE type::table($tb) CONTENT $data RETURN *",
                vars: Some(vars),
                readonly: false,
            },
        )
    }

    /// The statement that selects the to-do record with the local id `tid`.
    ///
    /// Fails with `IdentifierParseError` where `todo:` followed by `tid` is
    /// no record identifier of the store, and where `tid` holds `[` or `{`:
    /// see [`thing`].
    pub fn get(tid: &str) -> (r: Result<Query, Error>)
        ensures
            outcome(r) == get_query(tid@),
    {
        let text = todo_thing_text(tid);
        let th = match thing(text.as_str()) {
            Ok(th) => th,
            Err(e) => {
                return Err(e);
            },
        };
        let vars = Object::new().insert("th".to_owned(), Value::Thing(th));
        Ok(Query { sql: "SELECT * FROM $th", vars: Some(vars), readonly: true })
    }

    /// The statement that merges `data` into the to-do record with the local
    /// id `tid`.
    ///
    /// `data` is converted to a generic value, and the statement is the one
    /// that [`TodoBMC::update_content`] builds from that value, whatever the
    /// conversion gives, failures included. For a [`TodoPatch`] the value is
    /// the one of [`patch_to_value`].
    pub fn update<T: Patchable>(tid: &str, data: T) -> (r: Result<Query, Error>)
        ensures
            exists|content: Value| #[trigger]
                call_ensures(<T as Into<Value>>::into, (data,), content) && outcome(r)
                    == update_query(tid@, content@),
    {
        let content: Value = data.into();
        Self::update_content(tid, content)
    }

    /// The statement that merges `content` into the to-do record with the
    /// local id `tid`. Fields that `content` does not hold stay as they are;
    /// a `content` without fields changes nothing.
    ///
    /// Fails with `IdentifierParseError` where `todo:` followed by `tid` is
    /// no record identifier of the store, and where `tid` holds `[` or `{`:
    /// see [`thing`].
    pub fn update_content(tid: &str, content: Value) -> (r: Result<Query, Error>)
        ensures
            outcome(r) == update_query(tid@, content@),
    {
        let text = todo_thing_text(tid);
        let th = match thing(text.as_str()) {
            Ok(th) => th,
            Err(e) => {
                return Err(e);
            },
        };
        let vars = Object::new().insert("th".to_owned(), Value::Thing(th)).insert(
            "data".to_owned(),
            content,
        );
        Ok(Query { sql: "UPDATE $th MERGE $data RETURN *", vars: Some(vars), readonly: false })
    }

    /// The statement that deletes the to-do record with the local id `tid`.
    ///
    /// Fails with `IdentifierParseError` where `todo:` followed by `tid` is
    /// no record identifier of the store, and where `tid` holds `[` or `{`:
    /// see [`thing`].
    pub fn delete(tid: &str) -> (r: Result<Query, Error>)
        ensures
            outcome(r) == delete_query(tid@),
    {
        let text = todo_thing_text(tid);
        let th = match thing(text.as_str()) {
            Ok(th) => th,
            Err(e) => {
                return Err(e);
            },
        };
        let vars = Object::new().insert("th".to_owned(), Value::Thing(th));
        Ok(Query { sql: "DELETE $th RETURN *", vars: Some(vars), readonly: false })
    }

    /// Reads the record that the store returns for a create statement.
    ///
    /// The first answer is read as the record where it is a mapping itself;
    /// where it is a list, its first element is. A list without elements
    /// gives `TypeMismatch("Object")`, as does an answer that is neither a
    /// list nor a mapping. Where the document names its record, as those of
    /// the store do, the record that is read has an id, and the id is not
    /// empty.
    pub fn created(results: Vec<QueryResult>) -> (r: Result<Todo, Error>)
        ensures
            outcome(r) == created_result(results_view(results@)),
            names_its_record(created_document(results_view(results@))) ==> (r matches Ok(
                record,
            ) ==> (record.id matches Some(id) && id@.len() > 0)),
    {
        let first = match take_first(results) {
            Ok(value) => value,
            Err(e) => {
                return Err(e);
            },
        };
        let document = if first.is_array() {
            first.first()
        } else {
            first
        };
        match value_to_object(document) {
            Ok(object) => object_to_record(object),
            Err(e) => Err(e),
        }
    }

    /// Reads the record that the store returns for a get or update
    /// statement: the first element of the first answer.
    ///
    /// Where the store found no record the first answer is an empty list,
    /// which has no first element: the result is then
    /// `TypeMismatch("Object")`, never a record of default values. Where the
    /// document names its record, as those of the store do, the record that
    /// is read has an id, and the id is not empty.
    pub fn record(results: Vec<QueryResult>) -> (r: Result<Todo, Error>)
        ensures
            outcome(r) == record_result(results_view(results@)),
            names_its_record(record_document(results_view(results@))) ==> (r matches Ok(
                record,
            ) ==> (record.id matches Some(id) && id@.len() > 0)),
    {
        let first = match take_first(results) {
            Ok(value) => value,
            Err(e) => {
                return Err(e);
            },
        };
        match value_to_object(first.first()) {
            Ok(object) => object_to_record(object),
            Err(e) => Err(e),
        }
    }

    /// Confirms the deletion of the to-do record with the local id `tid`:
    /// returns the record's identifier, `todo:` followed by `tid`.
    ///
    /// The value of the store's answer is not looked at, so deleting a
    /// record that does not exist is confirmed like any other deletion.
    pub fn deleted(tid: &str, results: Vec<QueryResult>) -> (r: Result<String, Error>)
        ensures
            outcome(r) == deleted_result(tid@, results_view(results@)),
    {
        match take_first(results) {
            Ok(_) => Ok(todo_thing_text(tid)),
            Err(e) => Err(e),
        }
    }
}

} // verus!
