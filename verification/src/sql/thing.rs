//! Record identifiers.

use crate::error::{Error, ErrorView};
use vstd::prelude::*;

verus! {

/// `surrealdb::sql::Id`, the part of a record identifier that names the
/// record within its table. The mapper never looks inside one: it carries
/// the id from the store's parser to the statement that is bound to it.
#[verifier::external_type_specification]
#[verifier::external_body]
pub struct ExRecordId(surrealdb::sql::Id);

/// A record identifier: a table and the record's id within it.
#[derive(Debug, PartialEq)]
pub struct Thing {
    pub tb: String,
    pub id: surrealdb::sql::Id,
}

/// The mathematical value of a [`Thing`].
pub struct ThingView {
    pub tb: Seq<char>,
    pub id: surrealdb::sql::Id,
}

impl View for Thing {
    type V = ThingView;

    open spec fn view(&self) -> ThingView {
        ThingView { tb: self.tb@, id: self.id }
    }
}

/// What the store's identifier syntax makes of `text`: the identifier it
/// reads, or `None` where it reads none.
pub uninterp spec fn thing_syntax(text: Seq<char>) -> Option<ThingView>;

/// The text in which the store writes `thing`.
pub uninterp spec fn thing_raw(thing: ThingView) -> Seq<char>;

/// Whether `text` holds a character that opens a list or a mapping.
pub open spec fn has_composite_opener(text: Seq<char>) -> bool {
    text.contains('[') || text.contains('{')
}

/// Whether the only `:` of `text` is its last character: a table is named,
/// and nothing follows that could name a record.
pub open spec fn ends_at_separator(text: Seq<char>) -> bool {
    text.len() > 0 && text.last() == ':' && !text.drop_last().contains(':')
}

/// The identifier that the mapper reads from `text`: what the store's syntax
/// makes of it, and none where the text could open a list or a mapping or
/// ends at its only `:`.
pub open spec fn thing_of(text: Seq<char>) -> Option<ThingView> {
    if has_composite_opener(text) || ends_at_separator(text) {
        None
    } else {
        thing_syntax(text)
    }
}

/// Calls `surrealdb::sql::thing`, the store's parser for record identifiers,
/// and moves the fields of what it returns into a [`Thing`].
///
/// Trusted: whether the parser accepts the text and what it reads depend on
/// the text alone, and are what [`thing_syntax`] names. The parser asks for
/// a table, a `:` and an id of at least one character, so it reads nothing
/// from a text whose only `:` is its last character. The parser reads lists
/// and mappings by unbounded recursion, so a text that could open one is
/// kept away from it.
#[verifier::external_body]
fn parse_thing(text: &str) -> (r: Option<Thing>)
    requires
        !has_composite_opener(text@),
    ensures
        match r {
            Some(thing) => thing_syntax(text@) == Some(thing@),
            None => thing_syntax(text@) is None,
        },
        ends_at_separator(text@) ==> r is None,
{
    match surrealdb::sql::thing(text) {
        Ok(parsed) => Some(Thing { tb: parsed.tb, id: parsed.id }),
        Err(_) => None,
    }
}

/// Calls `surrealdb::sql::Thing::to_raw` on the store's form of `thing`.
///
/// Trusted: the text depends on the identifier alone, and is what
/// [`thing_raw`] names. The store writes the table, a `:` and the id, so the
/// text is never empty.
#[verifier::external_body]
pub(crate) fn raw_text(thing: &Thing) -> (text: String)
    ensures
        text@ == thing_raw(thing@),
        text@.len() > 0,
{
    surrealdb::sql::Thing { tb: thing.tb.clone(), id: thing.id.clone() }.to_raw()
}

/// Whether `text` holds `[` or `{`.
fn opens_composite(text: &str) -> (found: bool)
    ensures
        found == has_composite_opener(text@),
{
    let mut found = false;
    for c in it: text.chars()
        invariant
            found == exists|j: int|
                0 <= j < it.index() && (#[trigger] it.seq()[j] == '[' || it.seq()[j] == '{'),
    {
        if c == '[' || c == '{' {
            found = true;
        }
    }
    found
}

/// Reads a record identifier from `text`, which has the form `table:id`.
///
/// Succeeds exactly where the store's syntax reads an identifier from the
/// text and the text holds neither `[` nor `{`; otherwise the text comes
/// back in [`Error::IdentifierParseError`]. A text that ends at its only
/// `:`, a table without an id, is among those that fail.
pub fn thing(text: &str) -> (r: Result<Thing, Error>)
    ensures
        match r {
            Ok(thing) => thing_of(text@) == Some(thing@),
            Err(e) => thing_of(text@) is None && e@ == ErrorView::IdentifierParseError(text@),
        },
{
    if opens_composite(text) {
        return Err(Error::IdentifierParseError(text.to_owned()));
    }
    match parse_thing(text) {
        Some(thing) => Ok(thing),
        None => Err(Error::IdentifierParseError(text.to_owned())),
    }
}

} // verus!
