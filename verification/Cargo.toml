[package]
name = "edgedb_wasm"
version = "0.1.0"
edition = "2021"
publish = false

[dependencies]
anyhow = "=1.0.104"
async-once-cell = "=0.5.4"
async-trait = "=0.1.92"
bytes = { version = "=1.12.1", features = ["serde"] }
clap = { version = "=3.2.25", features = ["derive"] }
edgedb-errors = "=0.4.2"
edgedb-protocol = "=0.6.1"
edgedb-tokio = { version = "=0.5.1", features = ["unstable"] }
env_logger = "=0.11.11"
http = "=0.2.12"
hyper = { version = "=0.14.32", features = ["server", "http1", "tcp"] }
log = "=0.4.34"
minicbor = { version = "=2.3.1", features = ["derive"] }
once_cell = "=1.21.4"
proc-macro-error = "=1.0.4"
proc-macro2 = "=1.0.107"
quote = "=1.0.47"
serde = { version = "=1.0.229", features = ["derive"] }
serde-pickle = "=1.2.0"
syn = { version = "=1.0.109", features = ["full"] }
thiserror = "=1.0.69"
tokio = { version = "=1.54.1", features = ["full"] }
wasmtime = "=45.0.3"
wasmtime-wasi = "=45.0.3"
