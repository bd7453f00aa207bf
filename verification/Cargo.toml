[package]
name = "civic_graph"
version = "0.1.0"
edition = "2021"
publish = false

[dependencies]
chrono = { version = "=0.4.45", default-features = false }
slugify = "=0.1.0"
uuid = "=1.29.0"
pwhash = "1"
async-graphql = { version = "=7.2.1", default-features = false, features = ["dataloader"] }
sqlx = { version = "=0.8.6", default-features = false, features = ["postgres", "runtime-tokio", "uuid", "chrono"] }
