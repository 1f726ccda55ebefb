[package]
name = "currency"
version = "0.1.0"
edition = "2021"
publish = false

[dependencies]
reqwest = { version = "0.11", default-features = false, features = ["json"] }
serde_json = { version = "1", features = ["preserve_order"] }
shellexpand = "3"
tokio = { version = "1", features = ["macros", "net", "rt-multi-thread", "sync"] }
warp = { version = "0.3", default-features = false, features = ["compression-gzip"] }
