[package]
name = "tube_tag"
version = "0.1.0"
edition = "2021"
publish = false

[dependencies]
simsearch = "=0.2.5"
rand = "=0.8.5"
serde = { version = "=1.0.229", features = ["derive"] }
serde_json = "=1.0.151"
json_comments = "=0.2.2"
