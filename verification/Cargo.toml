[package]
name = "munk_gateway"
version = "0.1.0"
edition = "2021"
publish = false

[dependencies]
axum = "*"
tokio = { version = "*", features = ["macros", "rt-multi-thread", "net"] }
serde_json = "*"
deno_core = "*"
