[package]
name = "yumush"
version = "0.1.0"
edition = "2021"
publish = false

[dependencies]
ulid = "1"
bitcode = "0.6"
quinn = "0.11"
tokio = { version = "1", features = ["macros", "rt", "rt-multi-thread", "sync", "time"] }
rustls = { version = "0.23", features = ["ring"] }
rcgen = "0.14"
surrealdb = { version = "*", default-features = false }
