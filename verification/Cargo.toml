[package]
name = "midoku"
version = "0.1.0"
edition = "2021"
publish = false

[dependencies]
futures = "=0.3.34"
governor = "=0.10.4"
reqwest = { version = "=0.13.5", default-features = false, features = ["blocking"] }
serde = { version = "=1.0.229", features = ["derive"] }
tokio = { version = "=1.53.2", default-features = false, features = ["rt", "sync", "time"] }
wasmtime = { version = "=48.0.5", default-features = false, features = ["runtime", "component-model", "async", "cranelift"] }
