[package]
name = "lemmy_server"
version = "0.1.0"
edition = "2021"
publish = false

[dependencies]
activitystreams = "=0.7.0-alpha.25"
actix-web = { version = "=4.18.1", default-features = false }
async-trait = "0.1"
chrono = { version = "=0.4.45", features = ["serde"] }
console-subscriber = "=0.5.0"
serde = { version = "1", features = ["derive"] }
serde_json = "1"
tracing = "0.1"
tracing-error = "0.2"
tracing-log = "0.2"
tracing-subscriber = "=0.3.23"
url = { version = "=2.5.8", features = ["serde"] }
