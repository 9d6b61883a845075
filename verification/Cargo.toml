[package]
name = "lemmy_apub"
version = "0.1.0"
edition = "2021"
publish = false

[dependencies]
url = { version = "2", features = ["serde"] }
chrono = { version = "0.4", default-features = false, features = ["std", "serde"] }
serde = { version = "1", features = ["derive"] }
serde_json = "1"
serde_with = "*"
activitypub_federation = { version = "0.4", default-features = false, features = ["actix-web"] }
actix-web = { version = "4", default-features = false }
async-trait = "0.1"
tracing = "0.1"
