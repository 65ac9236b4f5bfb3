[package]
name = "nub_search"
version = "0.1.0"
edition = "2021"
publish = false

[dependencies]
tantivy = { version = "*", default-features = false }
rkyv = "0.8"
reqwest = { version = "0.12", default-features = false, features = ["json", "rustls-tls"] }
serde = { version = "1", features = ["derive"] }
tokio = { version = "1", features = ["rt-multi-thread", "macros", "time"] }
tracing = "0.1"
tracing-subscriber = "0.3"
dotenvy = "0.15"
twilight-cache-inmemory = "0.16"
twilight-gateway = "0.16"
twilight-http = "0.16"
twilight-interactions = "0.16"
twilight-model = "0.16"
twilight-util = { version = "0.16", features = ["builder"] }
