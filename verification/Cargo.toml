[package]
name = "version_server"
version = "0.1.0"
edition = "2021"
publish = false

[dependencies]
tokio = { version = "=1.53.2", default-features = false, features = ["rt-multi-thread", "net", "io-util"] }
nu-table = "=0.115.1"
rustc_version_runtime = "=0.3.0"

[dev-dependencies]
serde_json = "=1.0.151"
