//! What holds of the mapping between records and generic values, and of the
//! mapper's operations, for every input.

use crate::error::ErrorView;
use crate::model::todo_model::{
    delete_query, fields_of_patch, fields_of_record, get_query, identifier_text, record_of,
    thing_text, update_query, lemma_field_names_differ, record_of_value, record_result,
    records_of, records_result, records_upto, value_of_patch, value_of_record, TodoPatchView,
    TodoView,
};
use crate::repository::surrealdb_repo::QueryView;
use crate::sql::thing::{ends_at_separator, thing_of};
use crate::sql::value::{array_of, object_of, Fields, ValueView};
use vstd::prelude::*;

verus! {

/// A record that is mapped to a generic value and read back from it is the
/// same record: same `id`, same `title`, same `body`.
pub proof fn lemma_record_round_trip(record: TodoView)
    ensures
        object_of(value_of_record(record)) is Ok,
        record_of_value(value_of_record(record)) == Ok::<TodoView, ErrorView>(record),
{
    lemma_field_names_differ();
}

/// The generic value of a record is a mapping that holds `title` and `body`
/// with the record's texts, and `id` exactly where the record has one: the
/// value of an unsaved record leaves the id to the store.
pub proof fn lemma_record_holds_its_fields(record: TodoView)
    ensures
        object_of(value_of_record(record)) == Ok::<Fields, ErrorView>(fields_of_record(record)),
        fields_of_record(record).dom() == (if record.id is Some {
            set!["id"@, "title"@, "body"@]
        } else {
            set!["title"@, "body"@]
        }),
        fields_of_record(record)["title"@] == ValueView::Strand(record.title),
        fields_of_record(record)["body"@] == ValueView::Strand(record.body),
        record.id matches Some(id) ==> fields_of_record(record)["id"@] == ValueView::Strand(id),
{
    lemma_field_names_differ();
    assert(fields_of_record(record).dom() =~= (if record.id is Some {
        set!["id"@, "title"@, "body"@]
    } else {
        set!["title"@, "body"@]
    }));
}

/// The names of the fields that `patch` holds.
pub open spec fn present_fields(patch: TodoPatchView) -> Set<Seq<char>> {
    let title = if patch.title is Some {
        set!["title"@]
    } else {
        Set::<Seq<char>>::empty()
    };
    if patch.body is Some {
        title.insert("body"@)
    } else {
        title
    }
}

/// The generic value of a patch is a mapping whose names are exactly the
/// fields that the patch holds, each with the patch's text for it.
pub proof fn lemma_patch_holds_present_fields(patch: TodoPatchView)
    ensures
        object_of(value_of_patch(patch)) == Ok::<Fields, ErrorView>(fields_of_patch(patch)),
        fields_of_patch(patch).dom() == present_fields(patch),
        patch.title matches Some(title) ==> fields_of_patch(patch)["title"@] == ValueView::Strand(
            title,
        ),
        patch.body matches Some(body) ==> fields_of_patch(patch)["body"@] == ValueView::Strand(
            body,
        ),
{
    lemma_field_names_differ();
    assert(fields_of_patch(patch).dom() =~= present_fields(patch));
}

/// What a stored record holds after `patch` was merged into it: the fields
/// of the patch, and every other field as it was.
pub open spec fn merged(stored: Fields, patch: Fields) -> Fields {
    stored.union_prefer_right(patch)
}

/// Merging the value of a patch into a stored record changes the fields
/// that the patch holds, and no other: a field that the patch leaves out is
/// there afterwards exactly if it was there before, with the same value.
pub proof fn lemma_patch_changes_present_fields_only(stored: Fields, patch: TodoPatchView)
    ensures
        forall|name: Seq<char>|
            !present_fields(patch).contains(name) ==> {
                &&& #[trigger] merged(stored, fields_of_patch(patch)).contains_key(name)
                    == stored.contains_key(name)
                &&& stored.contains_key(name) ==> merged(stored, fields_of_patch(patch))[name]
                    == stored[name]
            },
        patch.title matches Some(title) ==> merged(stored, fields_of_patch(patch))["title"@]
            == ValueView::Strand(title),
        patch.body matches Some(body) ==> merged(stored, fields_of_patch(patch))["body"@]
            == ValueView::Strand(body),
        patch.title is None && patch.body is None ==> merged(stored, fields_of_patch(patch))
            == stored,
{
    lemma_patch_holds_present_fields(patch);
    if patch.title is None && patch.body is None {
        assert(merged(stored, fields_of_patch(patch)) =~= stored);
    }
}

/// The record after a patch: the patch's text where it holds a field, the
/// record's own text where it does not, and the record's id.
pub open spec fn patched(record: TodoView, patch: TodoPatchView) -> TodoView {
    TodoView {
        id: record.id,
        title: match patch.title {
            Some(title) => title,
            None => record.title,
        },
        body: match patch.body {
            Some(body) => body,
            None => record.body,
        },
    }
}

/// A stored document that reads as a record still reads as one after a
/// patch was merged into it: as the record with the fields of the patch
/// replaced, the other field and the id as they were.
pub proof fn lemma_patched_document_reads_back(stored: Fields, patch: TodoPatchView)
    requires
        record_of(stored) is Ok,
    ensures
        record_of(merged(stored, fields_of_patch(patch))) == Ok::<TodoView, ErrorView>(
            patched(record_of(stored)->Ok_0, patch),
        ),
{
    lemma_field_names_differ();
    lemma_patch_holds_present_fields(patch);
    let after = merged(stored, fields_of_patch(patch));
    assert(after.contains_key("id"@) == stored.contains_key("id"@));
    assert(stored.contains_key("id"@) ==> after["id"@] == stored["id"@]);
    assert(after.contains_key("title"@));
    assert(after.contains_key("body"@));
}

/// A table without an id names no record: the text that joins a table and
/// an empty id is refused, whatever the table, as long as its name holds no
/// `:` itself.
pub proof fn lemma_identifier_needs_an_id(tb: Seq<char>)
    requires
        !tb.contains(':'),
    ensures
        thing_of(identifier_text(tb, Seq::empty())) is None,
{
    reveal_strlit(":");
    let text = identifier_text(tb, Seq::empty());
    assert(text =~= tb.push(':'));
    assert(text.drop_last() =~= tb);
    assert(ends_at_separator(text));
}

/// An empty local id never reaches the store: getting, updating and deleting
/// fail with the parse failure of `todo:`, whatever is to be merged.
pub proof fn lemma_empty_local_id_fails(content: ValueView)
    ensures
        get_query(Seq::empty()) == Err::<QueryView, ErrorView>(
            ErrorView::IdentifierParseError("todo:"@),
        ),
        update_query(Seq::empty(), content) == Err::<QueryView, ErrorView>(
            ErrorView::IdentifierParseError("todo:"@),
        ),
        delete_query(Seq::empty()) == Err::<QueryView, ErrorView>(
            ErrorView::IdentifierParseError("todo:"@),
        ),
{
    reveal_strlit("todo");
    reveal_strlit(":");
    reveal_strlit("todo:");
    assert(!"todo"@.contains(':'));
    lemma_identifier_needs_an_id("todo"@);
    assert(thing_text(Seq::empty()) =~= "todo:"@);
}

/// What reading the to-do record with the local id `tid` comes to, where
/// the store answers the statement with `answers`: the failure to build the
/// statement, or what the answers hold.
pub open spec fn get_outcome(tid: Seq<char>, answers: Seq<Result<ValueView, Seq<char>>>) -> Result<
    TodoView,
    ErrorView,
> {
    match get_query(tid) {
        Ok(_) => record_result(answers),
        Err(e) => Err(e),
    }
}

/// Reading a record is repeatable: what it comes to depends on the local id
/// and on the store's answers alone, so reading twice gives the same record,
/// or the same failure, whenever the store answers the same both times.
/// With no write in between, that is up to the store.
pub proof fn lemma_get_is_repeatable(
    tid: Seq<char>,
    once: Seq<Result<ValueView, Seq<char>>>,
    again: Seq<Result<ValueView, Seq<char>>>,
)
    requires
        once == again,
    ensures
        get_outcome(tid, once) == get_outcome(tid, again),
{
}

/// A listing either reads every value as a record, in order, or fails with
/// the failure of the first value that is no record: there are no partial
/// results.
pub proof fn lemma_listing_is_all_or_first_failure(values: Seq<ValueView>)
    ensures
        match records_of(values) {
            Ok(records) => {
                &&& records.len() == values.len()
                &&& forall|i: int|
                    0 <= i < values.len() ==> #[trigger] record_of_value(values[i]) == Ok::<
                        TodoView,
                        ErrorView,
                    >(records[i])
            },
            Err(e) => exists|i: int|
                {
                    &&& 0 <= i < values.len()
                    &&& #[trigger] record_of_value(values[i]) == Err::<TodoView, ErrorView>(e)
                    &&& forall|j: int| 0 <= j < i ==> #[trigger] record_of_value(values[j]) is Ok
                },
        },
{
    lemma_listing_upto(values, values.len() as int);
}

proof fn lemma_listing_upto(values: Seq<ValueView>, n: int)
    requires
        0 <= n <= values.len(),
    ensures
        match records_upto(values, n) {
            Ok(records) => {
                &&& records.len() == n
                &&& forall|i: int|
                    0 <= i < n ==> #[trigger] record_of_value(values[i]) == Ok::<
                        TodoView,
                        ErrorView,
                    >(records[i])
            },
            Err(e) => exists|i: int|
                {
                    &&& 0 <= i < n
                    &&& #[trigger] record_of_value(values[i]) == Err::<TodoView, ErrorView>(e)
                    &&& forall|j: int| 0 <= j < i ==> #[trigger] record_of_value(values[j]) is Ok
                },
        },
    decreases n,
{
    if n > 0 {
        lemma_listing_upto(values, n - 1);
        match records_upto(values, n - 1) {
            Ok(records) => {
                match record_of_value(values[n - 1]) {
                    Ok(record) => {},
                    Err(e) => {
                        assert(record_of_value(values[n - 1]) == Err::<TodoView, ErrorView>(e));
                    },
                }
            },
            Err(e) => {
                let i = choose|i: int|
                    {
                        &&& 0 <= i < n - 1
                        &&& #[trigger] record_of_value(values[i]) == Err::<TodoView, ErrorView>(e)
                        &&& forall|j: int|
                            0 <= j < i ==> #[trigger] record_of_value(values[j]) is Ok
                    };
                assert(0 <= i < n && record_of_value(values[i]) == Err::<TodoView, ErrorView>(e));
            },
        }
    }
}

/// Listing an empty table gives no records, and no failure: where the first
/// answer of the store is an empty list, the listing is empty.
pub proof fn lemma_empty_listing(results: Seq<Result<ValueView, Seq<char>>>)
    requires
        results.len() > 0,
        results[0] == Ok::<ValueView, Seq<char>>(ValueView::Array(Seq::empty())),
    ensures
        records_result(results) == Ok::<Seq<TodoView>, ErrorView>(Seq::empty()),
{
}

/// A value that is no list never narrows to a list: not to an empty one, and
/// not to a list that holds the value.
pub proof fn lemma_only_lists_narrow_to_lists(value: ValueView)
    ensures
        array_of(value) is Ok <==> value is Array,
        !(value is Array) ==> array_of(value) == Err::<Seq<ValueView>, ErrorView>(
            ErrorView::TypeMismatch("Array"@),
        ),
{
}

} // verus!
