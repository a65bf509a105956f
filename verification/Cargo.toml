[package]
name = "todo_mapper"
version = "0.1.0"
edition = "2021"
publish = false

[dependencies]
actix-web = "=4.18.1"
serde = { version = "=1.0.229", features = ["derive"] }
surrealdb = { version = "=1.0.0-beta.8", default-features = false, features = ["kv-mem"] }
thiserror = "=1.0.69"

[dev-dependencies]
futures = "=0.3.34"
