[package]
name = "response_error"
version = "0.1.0"
edition = "2021"
publish = false

[dependencies]
arc-swap = "1"
serde_json = "1"
lazy_static = "1"
log = "0.4"
proc-macro2 = "1"
quote = "1"
syn = { version = "1", features = ["full"] }
actix-web = { version = "4", default-features = false }
