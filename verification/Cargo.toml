[package]
name = "memex"
version = "0.1.0"
edition = "2021"
publish = false

[dependencies]
anyhow = "1"
ignore = "0.4"
iron = "0.6"
mount = "0.4"
paw = "1"
persistent = "0.4"
plist = "1"
serde = { version = "1", features = ["derive"] }
serde_derive = "1"
serde_json = "1"
structopt = { version = "0.3", features = ["paw"] }
tantivy = "0.19"
urlencoded = "0.6"
