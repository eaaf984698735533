[package]
name = "tumu"
version = "0.1.0"
edition = "2021"
publish = false

[dependencies]
deno_core = "=0.48.3"
futures = "=0.3.34"
log = "=0.4.34"
serde_json = "=1.0.154"
tokio = { version = "=0.2.25", features = ["rt-core", "time"] }
