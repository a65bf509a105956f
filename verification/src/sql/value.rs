//! Generic values: the interchange format between typed records and the
//! store.

use crate::error::{Error, ErrorView};
use crate::sql::thing::{raw_text, thing_raw, Thing, ThingView};
use vstd::prelude::*;

verus! {

/// `surrealdb::sql::Number`, a number of the store. The mapper never
/// computes with one: it carries it through.
#[verifier::external_type_specification]
#[verifier::external_body]
pub struct ExStoreNumber(surrealdb::sql::Number);

/// A value of the store: nothing, a scalar, a list, a mapping from field
/// names to values, or a record identifier.
#[derive(Debug, PartialEq)]
pub enum Value {
    Null,
    Bool(bool),
    Number(surrealdb::sql::Number),
    Strand(String),
    Array(Array),
    Object(Object),
    Thing(Thing),
}

/// An ordered list of values.
pub type Array = Vec<Value>;

/// A mapping from field names to values. No name occurs twice.
///
/// Two objects are `==` when they hold the same entries in the same order;
/// their views are equal whenever they map the same names to the same
/// values.
#[derive(Debug, PartialEq)]
pub struct Object {
    entries: Vec<(String, Value)>,
}

/// The mathematical value of an [`Object`].
pub type Fields = Map<Seq<char>, ValueView>;

/// The mathematical value of a [`Value`].
pub enum ValueView {
    Null,
    Bool(bool),
    Number(surrealdb::sql::Number),
    Strand(Seq<char>),
    Array(Seq<ValueView>),
    Object(Fields),
    Thing(ThingView),
}

/// The name of the `i`-th entry.
pub open spec fn key_at(entries: Seq<(String, Value)>, i: int) -> Seq<char> {
    entries[i].0@
}

/// No two entries have the same name.
pub open spec fn distinct_keys(entries: Seq<(String, Value)>) -> bool {
    forall|i: int, j: int|
        0 <= i < j < entries.len() ==> #[trigger] key_at(entries, i) != #[trigger] key_at(
            entries,
            j,
        )
}

/// The value that `value` stands for.
pub open spec fn value_view(value: Value) -> ValueView
    decreases value,
{
    match value {
        Value::Null => ValueView::Null,
        Value::Bool(b) => ValueView::Bool(b),
        Value::Number(n) => ValueView::Number(n),
        Value::Strand(s) => ValueView::Strand(s@),
        Value::Array(a) => ValueView::Array(values_view(a@)),
        Value::Object(o) => ValueView::Object(fields_view(o.entries(), o.entries().len() as int)),
        Value::Thing(t) => ValueView::Thing(t@),
    }
}

/// The mapping that the first `n` of `entries` stand for.
pub open spec fn fields_view(entries: Seq<(String, Value)>, n: int) -> Fields
    decreases entries, n,
{
    if n <= 0 || n > entries.len() {
        Map::empty()
    } else {
        fields_view(entries, n - 1).insert(key_at(entries, n - 1), value_view(entries[n - 1].1))
    }
}

/// The values that the elements of `values` stand for, in order.
pub open spec fn values_view(values: Seq<Value>) -> Seq<ValueView>
    decreases values,
{
    Seq::new(
        values.len(),
        |i: int|
            if 0 <= i < values.len() {
                value_view(values[i])
            } else {
                ValueView::Null
            },
    )
}

impl View for Value {
    type V = ValueView;

    open spec fn view(&self) -> ValueView {
        value_view(*self)
    }
}

impl View for Object {
    type V = Fields;

    open spec fn view(&self) -> Fields {
        fields_view(self.entries(), self.entries().len() as int)
    }
}

/// A name is among the first `n` entries exactly if the mapping holds it.
pub proof fn lemma_fields_view_domain(entries: Seq<(String, Value)>, n: int, k: Seq<char>)
    requires
        0 <= n <= entries.len(),
    ensures
        fields_view(entries, n).contains_key(k) <==> exists|i: int|
            0 <= i < n && #[trigger] key_at(entries, i) == k,
    decreases n,
{
    if n > 0 {
        lemma_fields_view_domain(entries, n - 1, k);
        if key_at(entries, n - 1) == k {
        } else if fields_view(entries, n - 1).contains_key(k) {
            let i = choose|i: int| 0 <= i < n - 1 && #[trigger] key_at(entries, i) == k;
            assert(0 <= i < n && key_at(entries, i) == k);
        } else if exists|i: int| 0 <= i < n && #[trigger] key_at(entries, i) == k {
            let i = choose|i: int| 0 <= i < n && #[trigger] key_at(entries, i) == k;
            assert(0 <= i < n - 1 && key_at(entries, i) == k);
        }
    }
}

/// Where no name occurs twice, the mapping gives each name the value of its
/// entry.
pub proof fn lemma_fields_view_value(entries: Seq<(String, Value)>, n: int, i: int)
    requires
        0 <= i < n <= entries.len(),
        distinct_keys(entries),
    ensures
        fields_view(entries, n).contains_key(key_at(entries, i)),
        fields_view(entries, n)[key_at(entries, i)] == value_view(entries[i].1),
    decreases n,
{
    if i < n - 1 {
        lemma_fields_view_value(entries, n - 1, i);
        assert(key_at(entries, i) != key_at(entries, n - 1));
    }
}

impl Object {
    #[verifier::type_invariant]
    spec fn well_formed(self) -> bool {
        distinct_keys(self.entries@)
    }

    /// The entries, in the order in which their names were first inserted.
    pub closed spec fn entries(self) -> Seq<(String, Value)> {
        self.entries@
    }

    /// An object without fields.
    pub fn new() -> (object: Object)
        ensures
            object@ == Map::<Seq<char>, ValueView>::empty(),
    {
        Object { entries: Vec::new() }
    }

    /// The index of the entry named `key`, if there is one.
    fn position(&self, key: &str) -> (r: Option<usize>)
        ensures
            match r {
                Some(i) => i < self.entries().len() && key_at(self.entries(), i as int) == key@,
                None => forall|i: int|
                    0 <= i < self.entries().len() ==> #[trigger] key_at(self.entries(), i) != key@,
            },
    {
        let wanted = key.to_owned();
        let mut i: usize = 0;
        while i < self.entries.len()
            invariant
                i <= self.entries@.len(),
                wanted@ == key@,
                forall|j: int| 0 <= j < i ==> #[trigger] key_at(self.entries@, j) != key@,
            decreases self.entries@.len() - i,
        {
            if self.entries[i].0 == wanted {
                return Some(i);
            }
            i += 1;
        }
        None
    }

    /// The value of the field named `key`, if the object has that field.
    pub fn get(&self, key: &str) -> (r: Option<&Value>)
        ensures
            match r {
                Some(value) => self@.contains_key(key@) && self@[key@] == value@,
                None => !self@.contains_key(key@),
            },
    {
        proof {
            use_type_invariant(self);
            lemma_fields_view_domain(self.entries@, self.entries@.len() as int, key@);
        }
        match self.position(key) {
            Some(i) => {
                proof {
                    lemma_fields_view_value(self.entries@, self.entries@.len() as int, i as int);
                }
                Some(&self.entries[i].1)
            },
            None => None,
        }
    }

    /// Sets the field named `key` to `value`, whether or not the object had
    /// that field.
    pub fn insert(self, key: String, value: Value) -> (object: Object)
        ensures
            object@ == self@.insert(key@, value@),
    {
        proof {
            use_type_invariant(&self);
        }
        let ghost before = self.entries@;
        let found = self.position(key.as_str());
        let mut entries = self.entries;
        match found {
            Some(i) => {
                entries[i] = (key, value);
                proof {
                    lemma_fields_view_replace(before, entries@, i as int);
                }
            },
            None => {
                entries.push((key, value));
                proof {
                    assert(entries@.drop_last() =~= before);
                    assert(before == self.entries());
                    assert(key_at(entries@, before.len() as int) == key@);
                    lemma_fields_view_push(before, entries@);
                }
            },
        }
        Object { entries }
    }

    /// Takes the field named `key` out of the object, and returns what is
    /// left beside the field's value.
    pub fn remove(self, key: &str) -> (r: (Object, Option<Value>))
        ensures
            r.0@ == self@.remove(key@),
            match r.1 {
                Some(value) => self@.contains_key(key@) && self@[key@] == value@,
                None => !self@.contains_key(key@),
            },
    {
        proof {
            use_type_invariant(&self);
            lemma_fields_view_domain(self.entries@, self.entries@.len() as int, key@);
        }
        let ghost before = self.entries@;
        let found = self.position(key);
        let mut entries = self.entries;
        match found {
            Some(i) => {
                let entry = entries.remove(i);
                proof {
                    lemma_fields_view_value(before, before.len() as int, i as int);
                    lemma_fields_view_remove(before, entries@, i as int);
                }
                (Object { entries }, Some(entry.1))
            },
            None => {
                assert(self@.remove(key@) =~= self@);
                (Object { entries }, None)
            },
        }
    }

    /// The fields as a list of names and values, no name twice.
    pub fn into_entries(self) -> (entries: Vec<(String, Value)>)
        ensures
            distinct_keys(entries@),
            fields_view(entries@, entries@.len() as int) == self@,
    {
        proof {
            use_type_invariant(&self);
        }
        self.entries
    }
}

/// The first element of a list; `Null` for an empty list and for anything
/// that is no list.
pub open spec fn first_of(value: ValueView) -> ValueView {
    match value {
        ValueView::Array(items) => if items.len() > 0 {
            items[0]
        } else {
            ValueView::Null
        },
        _ => ValueView::Null,
    }
}

/// The fields of a mapping; a mismatch for anything else.
pub open spec fn object_of(value: ValueView) -> Result<Fields, ErrorView> {
    match value {
        ValueView::Object(fields) => Ok(fields),
        _ => Err(ErrorView::TypeMismatch("Object"@)),
    }
}

/// The elements of a list; a mismatch for anything else.
pub open spec fn array_of(value: ValueView) -> Result<Seq<ValueView>, ErrorView> {
    match value {
        ValueView::Array(items) => Ok(items),
        _ => Err(ErrorView::TypeMismatch("Array"@)),
    }
}

/// The text of a string, or the text in which the store writes a record
/// identifier; a mismatch for anything else.
pub open spec fn text_of(value: ValueView) -> Result<Seq<char>, ErrorView> {
    match value {
        ValueView::Strand(text) => Ok(text),
        ValueView::Thing(thing) => Ok(thing_raw(thing)),
        _ => Err(ErrorView::TypeMismatch("String"@)),
    }
}

impl Value {
    /// Whether the value is a list.
    pub fn is_array(&self) -> (b: bool)
        ensures
            b == (self@ is Array),
    {
        match self {
            Value::Array(_) => true,
            _ => false,
        }
    }

    /// Picks the first element of a list. An empty list has none, and
    /// neither has a value that is no list: both give `Null`.
    pub fn first(self) -> (first: Value)
        ensures
            first@ == first_of(self@),
    {
        match self {
            Value::Array(mut items) => {
                if items.len() > 0 {
                    items.swap_remove(0)
                } else {
                    Value::Null
                }
            },
            _ => Value::Null,
        }
    }
}

/// Narrows a value to a mapping of fields.
///
/// Fails with `TypeMismatch("Object")` on every value that is no mapping.
pub fn value_to_object(value: Value) -> (r: Result<Object, Error>)
    ensures
        match r {
            Ok(object) => object_of(value@) == Ok::<Fields, ErrorView>(object@),
            Err(e) => object_of(value@) == Err::<Fields, ErrorView>(e@),
        },
{
    match value {
        Value::Object(object) => Ok(object),
        _ => Err(Error::TypeMismatch("Object")),
    }
}

/// Narrows a value to a list.
///
/// Fails with `TypeMismatch("Array")` on every value that is no list: a
/// scalar is never taken for a list of one element.
pub fn value_to_array(value: Value) -> (r: Result<Array, Error>)
    ensures
        match r {
            Ok(items) => array_of(value@) == Ok::<Seq<ValueView>, ErrorView>(values_view(items@)),
            Err(e) => array_of(value@) == Err::<Seq<ValueView>, ErrorView>(e@),
        },
{
    match value {
        Value::Array(items) => Ok(items),
        _ => Err(Error::TypeMismatch("Array")),
    }
}

/// Narrows a value to text: a string gives its characters, a record
/// identifier the text in which the store writes it.
///
/// Fails with `TypeMismatch("String")` on every other value. The text of a
/// record identifier is never empty.
pub fn value_to_string(value: Value) -> (r: Result<String, Error>)
    ensures
        match r {
            Ok(text) => text_of(value@) == Ok::<Seq<char>, ErrorView>(text@),
            Err(e) => text_of(value@) == Err::<Seq<char>, ErrorView>(e@),
        },
        value@ is Thing ==> (r matches Ok(text) && text@.len() > 0),
{
    match value {
        Value::Strand(text) => Ok(text),
        Value::Thing(thing) => Ok(raw_text(&thing)),
        _ => Err(Error::TypeMismatch("String")),
    }
}

/// Replacing the value of the `i`-th entry, under a name that reads the
/// same, sets that name to the new value.
proof fn lemma_fields_view_replace(
    before: Seq<(String, Value)>,
    after: Seq<(String, Value)>,
    i: int,
)
    requires
        0 <= i < before.len(),
        distinct_keys(before),
        after == before.update(i, after[i]),
        key_at(after, i) == key_at(before, i),
    ensures
        distinct_keys(after),
        fields_view(after, after.len() as int) == fields_view(before, before.len() as int).insert(
            key_at(after, i),
            value_view(after[i].1),
        ),
{
    let n = before.len() as int;
    assert forall|a: int, b: int| 0 <= a < b < after.len() implies #[trigger] key_at(after, a)
        != #[trigger] key_at(after, b) by {
        assert(key_at(after, a) == key_at(before, a));
        assert(key_at(after, b) == key_at(before, b));
    }
    let lhs = fields_view(after, n);
    let rhs = fields_view(before, n).insert(key_at(after, i), value_view(after[i].1));
    assert forall|k: Seq<char>| lhs.contains_key(k) <==> rhs.contains_key(k) by {
        lemma_fields_view_domain(after, n, k);
        lemma_fields_view_domain(before, n, k);
        if lhs.contains_key(k) {
            let j = choose|j: int| 0 <= j < n && #[trigger] key_at(after, j) == k;
            assert(key_at(before, j) == k);
        }
        if fields_view(before, n).contains_key(k) {
            let j = choose|j: int| 0 <= j < n && #[trigger] key_at(before, j) == k;
            assert(key_at(after, j) == k);
        }
        if k == key_at(after, i) {
            assert(key_at(after, i) == k);
        }
    }
    assert forall|k: Seq<char>| lhs.contains_key(k) implies lhs[k] == rhs[k] by {
        lemma_fields_view_domain(after, n, k);
        let j = choose|j: int| 0 <= j < n && #[trigger] key_at(after, j) == k;
        lemma_fields_view_value(after, n, j);
        if j != i {
            lemma_fields_view_value(before, n, j);
            assert(key_at(before, j) != key_at(before, i));
            assert(after[j] == before[j]);
        }
    }
    assert(lhs =~= rhs);
}

/// Appending an entry under a new name adds that name with its value.
proof fn lemma_fields_view_push(before: Seq<(String, Value)>, after: Seq<(String, Value)>)
    requires
        distinct_keys(before),
        after.len() == before.len() + 1,
        after.drop_last() == before,
        forall|i: int|
            0 <= i < before.len() ==> #[trigger] key_at(before, i) != key_at(
                after,
                before.len() as int,
            ),
    ensures
        distinct_keys(after),
        fields_view(after, after.len() as int) == fields_view(before, before.len() as int).insert(
            key_at(after, before.len() as int),
            value_view(after.last().1),
        ),
{
    let n = before.len() as int;
    assert forall|a: int, b: int| 0 <= a < b < after.len() implies #[trigger] key_at(after, a)
        != #[trigger] key_at(after, b) by {
        assert(after[a] == before[a]);
        assert(key_at(after, a) == key_at(before, a));
        if b < n {
            assert(after[b] == before[b]);
            assert(key_at(after, b) == key_at(before, b));
        }
    }
    lemma_fields_view_same_prefix(before, after, n);
}

/// The mapping of the first `n` entries depends on those entries alone.
proof fn lemma_fields_view_same_prefix(a: Seq<(String, Value)>, b: Seq<(String, Value)>, n: int)
    requires
        0 <= n <= a.len(),
        n <= b.len(),
        forall|i: int| 0 <= i < n ==> a[i] == b[i],
    ensures
        fields_view(a, n) == fields_view(b, n),
    decreases n,
{
    if n > 0 {
        lemma_fields_view_same_prefix(a, b, n - 1);
        assert(a[n - 1] == b[n - 1]);
    }
}

/// Dropping the `i`-th entry drops its name from the mapping.
proof fn lemma_fields_view_remove(
    before: Seq<(String, Value)>,
    after: Seq<(String, Value)>,
    i: int,
)
    requires
        0 <= i < before.len(),
        distinct_keys(before),
        after == before.remove(i),
    ensures
        distinct_keys(after),
        fields_view(after, after.len() as int) == fields_view(before, before.len() as int).remove(
            key_at(before, i),
        ),
{
    let n = before.len() as int;
    let m = after.len() as int;
    assert forall|a: int| 0 <= a < m implies #[trigger] key_at(after, a) == key_at(
        before,
        if a < i {
            a
        } else {
            a + 1
        },
    ) by {}
    assert forall|a: int, b: int| 0 <= a < b < m implies #[trigger] key_at(after, a)
        != #[trigger] key_at(after, b) by {
        let a0 = if a < i { a } else { a + 1 };
        let b0 = if b < i { b } else { b + 1 };
        assert(key_at(before, a0) != key_at(before, b0));
    }
    let lhs = fields_view(after, m);
    let rhs = fields_view(before, n).remove(key_at(before, i));
    assert forall|k: Seq<char>| lhs.contains_key(k) <==> rhs.contains_key(k) by {
        lemma_fields_view_domain(after, m, k);
        lemma_fields_view_domain(before, n, k);
        if lhs.contains_key(k) {
            let j = choose|j: int| 0 <= j < m && #[trigger] key_at(after, j) == k;
            let j0 = if j < i { j } else { j + 1 };
            assert(key_at(before, j0) == k);
            assert(key_at(before, j0) != key_at(before, i));
        }
        if rhs.contains_key(k) {
            let j0 = choose|j: int| 0 <= j < n && #[trigger] key_at(before, j) == k;
            assert(j0 != i);
            let j = if j0 < i { j0 } else { j0 - 1 };
            assert(key_at(after, j) == k);
        }
    }
    assert forall|k: Seq<char>| lhs.contains_key(k) implies lhs[k] == rhs[k] by {
        lemma_fields_view_domain(after, m, k);
        let j = choose|j: int| 0 <= j < m && #[trigger] key_at(after, j) == k;
        let j0 = if j < i { j } else { j + 1 };
        lemma_fields_view_value(after, m, j);
        lemma_fields_view_value(before, n, j0);
        assert(after[j] == before[j0]);
    }
    assert(lhs =~= rhs);
}

} // verus!
