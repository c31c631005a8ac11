[package]
name = "delta_kernel_core"
version = "0.1.0"
edition = "2021"
publish = false

[dependencies]
arrow = { version = "*", default-features = false, features = ["ffi"] }
bytes = "1"
serde = { version = "1", features = ["derive"] }
serde_json = "1"
strum = { version = "*", features = ["derive"] }
thiserror = "2"
tracing = "0.1"
url = "2"
uuid = { version = "1", features = ["v4"] }
