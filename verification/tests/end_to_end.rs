use std::collections::BTreeMap;

use futures::executor::block_on;
use surrealdb::{Datastore, Session};
use todo_mapper::api::todo_api::{get_todo, reply, HttpReply};
use todo_mapper::error::Error;
use todo_mapper::model::todo_model::{Todo, TodoBMC, TodoPatch};
use todo_mapper::repository::surrealdb_repo::{Query, QueryResult};
use todo_mapper::sql::thing::Thing;
use todo_mapper::sql::value::{Object, Value};

fn to_store(value: Value) -> surrealdb::sql::Value {
    match value {
        Value::Null => surrealdb::sql::Value::Null,
        Value::Bool(true) => surrealdb::sql::Value::True,
        Value::Bool(false) => surrealdb::sql::Value::False,
        Value::Number(number) => surrealdb::sql::Value::Number(number),
        Value::Strand(text) => surrealdb::sql::Value::Strand(surrealdb::sql::Strand(text)),
        Value::Array(items) => {
            let mut list = Vec::new();
            for item in items {
                list.push(to_store(item));
            }
            surrealdb::sql::Value::Array(surrealdb::sql::Array(list))
        }
        Value::Object(object) => surrealdb::sql::Value::Object(surrealdb::sql::Object(to_vars(
            object,
        ))),
        Value::Thing(thing) => {
            surrealdb::sql::Value::Thing(surrealdb::sql::Thing { tb: thing.tb, id: thing.id })
        }
    }
}

fn to_vars(object: Object) -> BTreeMap<String, surrealdb::sql::Value> {
    let mut vars = BTreeMap::new();
    for (name, value) in object.into_entries() {
        vars.insert(name, to_store(value));
    }
    vars
}

fn from_store(value: surrealdb::sql::Value) -> Value {
    match value {
        surrealdb::sql::Value::None | surrealdb::sql::Value::Null => Value::Null,
        surrealdb::sql::Value::True => Value::Bool(true),
        surrealdb::sql::Value::False => Value::Bool(false),
        surrealdb::sql::Value::Number(number) => Value::Number(number),
        surrealdb::sql::Value::Strand(text) => Value::Strand(text.0),
        surrealdb::sql::Value::Array(list) => {
            let mut items = Vec::new();
            for item in list.0 {
                items.push(from_store(item));
            }
            Value::Array(items)
        }
        surrealdb::sql::Value::Object(map) => {
            let mut object = Object::new();
            for (name, value) in map.0 {
                object = object.insert(name, from_store(value));
            }
            Value::Object(object)
        }
        surrealdb::sql::Value::Thing(thing) => Value::Thing(Thing { tb: thing.tb, id: thing.id }),
        other => Value::Strand(other.to_string()),
    }
}

struct Store {
    ds: Datastore,
    ses: Session,
}

impl Store {
    fn open() -> Store {
        let ds = block_on(Datastore::new("memory")).unwrap();
        let ses = Session::for_kv().with_ns("test").with_db("test");
        Store { ds, ses }
    }

    fn run(&self, query: Query) -> Vec<QueryResult> {
        let vars = query.vars.map(to_vars);
        let answers =
            block_on(self.ds.execute(query.sql, &self.ses, vars, query.readonly)).unwrap();
        let mut results = Vec::new();
        for answer in answers {
            results.push(match answer.result {
                Ok(value) => Ok(from_store(value)),
                Err(e) => Err(e.to_string()),
            });
        }
        results
    }
}

fn local_id(id: &str) -> String {
    assert!(id.starts_with("todo:"));
    id["todo:".len()..].to_string()
}

#[test]
fn create_update_delete_get() {
    let store = Store::open();

    let record = Todo { id: None, title: "Buy milk".to_string(), body: "2%".to_string() };
    let created = TodoBMC::created(store.run(TodoBMC::create("todo", record).unwrap())).unwrap();
    let id = created.id.clone().unwrap();
    assert!(id.len() > "todo:".len());
    assert_eq!(created.title, "Buy milk");
    assert_eq!(created.body, "2%");
    let tid = local_id(&id);

    let fetched = TodoBMC::record(store.run(TodoBMC::get(&tid).unwrap())).unwrap();
    assert_eq!(fetched, created);

    let patch = TodoPatch { title: Some("Buy milk and eggs".to_string()), body: None };
    let updated = TodoBMC::record(store.run(TodoBMC::update(&tid, patch).unwrap())).unwrap();
    assert_eq!(updated.id, Some(id.clone()));
    assert_eq!(updated.title, "Buy milk and eggs");
    assert_eq!(updated.body, "2%");

    let confirmed = TodoBMC::deleted(&tid, store.run(TodoBMC::delete(&tid).unwrap())).unwrap();
    assert_eq!(confirmed, id);

    let gone = TodoBMC::record(store.run(TodoBMC::get(&tid).unwrap()));
    assert_eq!(gone, Err(Error::TypeMismatch("Object")));
}

#[test]
fn get_twice_without_a_write_reads_the_same_record() {
    let store = Store::open();
    let record = Todo { id: None, title: "t".to_string(), body: "b".to_string() };
    let created = TodoBMC::created(store.run(TodoBMC::create("todo", record).unwrap())).unwrap();
    let tid = local_id(&created.id.clone().unwrap());
    let once = TodoBMC::record(store.run(TodoBMC::get(&tid).unwrap()));
    let again = TodoBMC::record(store.run(TodoBMC::get(&tid).unwrap()));
    assert_eq!(once, again);
    assert_eq!(once, Ok(created));
}

#[test]
fn empty_patch_changes_nothing() {
    let store = Store::open();
    let record = Todo { id: None, title: "t".to_string(), body: "b".to_string() };
    let created = TodoBMC::created(store.run(TodoBMC::create("todo", record).unwrap())).unwrap();
    let tid = local_id(&created.id.clone().unwrap());
    let patch = TodoPatch { title: None, body: None };
    let updated = TodoBMC::record(store.run(TodoBMC::update(&tid, patch).unwrap())).unwrap();
    assert_eq!(updated, created);
}

#[test]
fn patch_of_the_body_keeps_the_title() {
    let store = Store::open();
    let record = Todo { id: None, title: "t".to_string(), body: "b".to_string() };
    let created = TodoBMC::created(store.run(TodoBMC::create("todo", record).unwrap())).unwrap();
    let tid = local_id(&created.id.clone().unwrap());
    let patch = TodoPatch { title: None, body: Some("new body".to_string()) };
    let updated = TodoBMC::record(store.run(TodoBMC::update(&tid, patch).unwrap())).unwrap();
    assert_eq!(updated.title, "t");
    assert_eq!(updated.body, "new body");
    assert_eq!(updated.id, created.id);
}

#[test]
fn listing_follows_the_table() {
    let store = Store::open();
    let first = Todo { id: None, title: "one".to_string(), body: "1".to_string() };
    let first = TodoBMC::created(store.run(TodoBMC::create("todo", first).unwrap())).unwrap();
    let second = Todo { id: None, title: "two".to_string(), body: "2".to_string() };
    let second = TodoBMC::created(store.run(TodoBMC::create("todo", second).unwrap())).unwrap();

    let mut listed = TodoBMC::records(store.run(TodoBMC::get_all())).unwrap();
    listed.sort_by(|a, b| a.title.cmp(&b.title));
    assert_eq!(listed.len(), 2);
    assert_eq!(listed[0], first);
    assert_eq!(listed[1], second);

    for record in [first, second] {
        let tid = local_id(&record.id.unwrap());
        TodoBMC::deleted(&tid, store.run(TodoBMC::delete(&tid).unwrap())).unwrap();
    }
    assert_eq!(TodoBMC::records(store.run(TodoBMC::get_all())), Ok(vec![]));
}

#[test]
fn deleting_what_is_not_there_is_confirmed() {
    let store = Store::open();
    let record = Todo { id: None, title: "t".to_string(), body: "b".to_string() };
    TodoBMC::created(store.run(TodoBMC::create("todo", record).unwrap())).unwrap();
    let confirmed =
        TodoBMC::deleted("neverthere", store.run(TodoBMC::delete("neverthere").unwrap()));
    assert_eq!(confirmed, Ok("todo:neverthere".to_string()));
}

#[test]
fn adapter_reports_a_missing_record_as_a_failure() {
    let store = Store::open();
    let record = Todo { id: None, title: "t".to_string(), body: "b".to_string() };
    TodoBMC::created(store.run(TodoBMC::create("todo", record).unwrap())).unwrap();
    let query = get_todo("neverthere").unwrap();
    assert_eq!(
        reply(TodoBMC::record(store.run(query))),
        HttpReply::InternalServerError("Value not of type 'Object'".to_string())
    );
}
