[package]
name = "tofuya"
version = "0.1.0"
edition = "2021"
publish = false
rust-version = "1.95"

[dependencies]
url = "=2.5.8"
oci-client = { version = "=0.18.0", default-features = false, features = ["rustls-tls"] }
sha2 = "=0.10.9"
hex = "=0.4.3"
docker_credential = "=1.4.0"
serde = { version = "1", features = ["derive"] }
serde_json = "1"
toml = "*"
rusqlite = { version = "*", features = ["bundled"] }
rusqlite_migration = "*"
tokio = { version = "1", features = ["full"] }
anyhow = "1"
clap = { version = "4", features = ["derive"] }
comfy-table = "*"
dirs = "*"
thiserror = "*"
wasmtime = { version = "=46.0.3", default-features = false, features = ["cranelift", "component-model", "async", "runtime"] }
wasmtime-wasi = "=46.0.3"
wasmtime-wasi-http = "=46.0.3"
wit-component = "=0.256.0"
wit-parser = "=0.256.0"
axum = "*"
reqwest = { version = "0.12", default-features = false, features = ["rustls-tls"] }
