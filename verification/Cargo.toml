[package]
name = "simulacra"
version = "0.1.0"
edition = "2021"
publish = false

[dependencies]
opentelemetry = "=0.33.1"
rquickjs = { version = "=0.10.0", features = ["futures"] }
rust_decimal = "=1.43.0"
serde = { version = "=1.0.229", features = ["derive"] }
serde_json = { version = "=1.0.154", features = ["preserve_order"] }
thiserror = "=2.0.21"
tokio = { version = "=1.54.1", features = ["macros", "rt", "rt-multi-thread", "sync", "time"] }
tokio-util = { version = "=0.7.20", features = ["rt"] }
tracing = "=0.1.44"
ulid = "=1.2.1"
wasmtime = { version = "=36.0.20", default-features = false, features = ["component-model", "cranelift", "runtime", "std"] }
wasmtime-wasi = "=36.0.20"
