[package]
name = "form_worker"
version = "0.1.0"
edition = "2021"
publish = false

[dependencies]
serde = { version = "*", features = ["derive"] }
serde_json = "*"
worker = "*"
console_error_panic_hook = "*"
