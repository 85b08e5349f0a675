[package]
name = "classic_acl"
version = "0.1.0"
edition = "2021"
publish = false

[dependencies]
bytes = "1"
log = "0.4"
tokio = { version = "1", default-features = false, features = ["macros", "rt", "sync"] }
