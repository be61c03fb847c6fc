[package]
name = "userop_indexer"
version = "0.1.0"
edition = "2021"
publish = false

[dependencies]
ethers-core = { version = "2", default-features = false }
ethers-providers = { version = "2", default-features = false, features = ["ws"] }
sqlx = { version = "0.8", default-features = false, features = ["postgres", "runtime-tokio"] }
tokio = { version = "1", features = ["rt-multi-thread", "macros"] }
futures-util = "0.3"
dotenv = "0.15"
eyre = "0.6"
tracing = "0.1"
tracing-subscriber = { version = "0.3", default-features = false, features = ["fmt", "registry"] }
