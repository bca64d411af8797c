[package]
name = "cargo-sandbox"
version = "0.1.0"
edition = "2021"
publish = false

[dependencies]
clap = { version = "4", features = ["derive"] }
eyre = "0.6"
futures = "0.3"
hyper = { version = "0.14", features = ["client", "http1", "runtime", "stream"] }
serde = { version = "1", features = ["derive"] }
serde_json = "1"
serde_url_params = "0.2"
thiserror = "1"
tokio = { version = "1", features = ["macros", "rt-multi-thread", "net", "io-util"] }
